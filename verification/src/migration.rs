//! Handing the client role of a contract over to another address.
use vstd::prelude::*;

use crate::state::{
    failed_unchanged, pause_error, record_wf, records_view, Escrow, EscrowView, RecordView,
};
use crate::ttl::{compute_expiry, expiry, PENDING_MIGRATION_TTL_LEDGERS};
use crate::types::{Address, Contract, ContractStatus, Error, Ledger, PendingClientMigration};

verus! {

/// The statuses in which the client role may still change hands.
pub open spec fn migratable(status: ContractStatus) -> bool {
    status is Created || status is PartiallyFunded || status is Funded
}

/// The pending migration of a record that is still live at ledger `sequence`.
pub open spec fn live_migration(r: RecordView, sequence: u32) -> Option<PendingClientMigration> {
    match r.migration {
        Some(m) => if sequence <= m.expires_at_ledger {
            Some(m)
        } else {
            None
        },
        None => None,
    }
}

/// The first check that `propose_client_migration` fails, if any.
pub open spec fn propose_migration_error(
    v: EscrowView,
    contract_id: u32,
    current_client: Address,
    new_client: Address,
) -> Option<Error> {
    let c = v.rec(contract_id).contract;
    if pause_error(v) is Some {
        pause_error(v)
    } else if !v.has_contract(contract_id) {
        Some(Error::ContractNotFound)
    } else if v.rec(contract_id).finalization is Some {
        Some(Error::AlreadyFinalized)
    } else if current_client != c.client {
        Some(Error::UnauthorizedRole)
    } else if !migratable(c.status) {
        Some(Error::InvalidStatusTransition)
    } else if new_client == c.freelancer || new_client == current_client {
        Some(Error::InvalidParticipant)
    } else {
        None
    }
}

/// The first check that `accept_client_migration` fails, if any.
pub open spec fn accept_migration_error(
    v: EscrowView,
    contract_id: u32,
    new_client: Address,
    ledger: Ledger,
) -> Option<Error> {
    let r = v.rec(contract_id);
    let m = live_migration(r, ledger.sequence);
    if pause_error(v) is Some {
        pause_error(v)
    } else if !v.has_contract(contract_id) {
        Some(Error::ContractNotFound)
    } else if r.finalization is Some {
        Some(Error::AlreadyFinalized)
    } else if m is None {
        Some(Error::InvalidState)
    } else if new_client != m->Some_0.proposed_client {
        Some(Error::UnauthorizedRole)
    } else if m->Some_0.current_client != r.contract.client {
        Some(Error::InvalidState)
    } else if !migratable(r.contract.status) {
        Some(Error::InvalidStatusTransition)
    } else {
        None
    }
}

impl Escrow {
    fn store_migration(&mut self, pos: usize, c: Contract, m: Option<PendingClientMigration>)
        requires
            old(self).wf(),
            pos < old(self)@.records.len(),
            c.funded_amount == old(self)@.records[pos as int].contract.funded_amount,
            c.released_amount == old(self)@.records[pos as int].contract.released_amount,
            c.refunded_amount == old(self)@.records[pos as int].contract.refunded_amount,
            c.total_deposited == old(self)@.records[pos as int].contract.total_deposited,
            c.status == old(self)@.records[pos as int].contract.status,
        ensures
            final(self).wf(),
            final(self)@ == old(self)@.with_rec(
                (pos + 1) as u32,
                RecordView { contract: c, migration: m, ..old(self)@.records[pos as int] },
            ),
    {
        let ghost old_view = self@;
        let ghost old_records = self.records@;
        self.records[pos].contract = c;
        self.records[pos].migration = m;
        proof {
            let expected = RecordView { contract: c, migration: m, ..old_view.records[pos as int] };
            assert(self.records@[pos as int]@ == expected);
            assert forall|k: int| 0 <= k < self.records@.len() && k != pos implies records_view(
                self.records@,
            )[k] == old_view.records[k] by {
                assert(self.records@[k] == old_records[k]);
            }
            assert(self@.records =~= old_view.records.update(pos as int, expected));
            assert(record_wf(old_view.records[pos as int]));
            assert(record_wf(expected));
        }
    }

    /// Proposes handing the client role to `new_client`; the proposal stays
    /// acceptable for `PENDING_MIGRATION_TTL_LEDGERS` (authorized by the
    /// current client).
    pub fn propose_client_migration(
        &mut self,
        contract_id: u32,
        current_client: Address,
        new_client: Address,
        ledger: Ledger,
    ) -> (r: Result<(), Error>)
        requires
            old(self).wf(),
        ensures
            final(self).wf(),
            failed_unchanged(
                r,
                propose_migration_error(old(self)@, contract_id, current_client, new_client),
                old(self)@,
                final(self)@,
            ),
            r is Ok ==> final(self)@ == old(self)@.with_rec(
                contract_id,
                RecordView {
                    migration: Some(
                        PendingClientMigration {
                            current_client,
                            proposed_client: new_client,
                            expires_at_ledger: expiry(ledger.sequence, PENDING_MIGRATION_TTL_LEDGERS),
                        },
                    ),
                    ..old(self)@.rec(contract_id)
                },
            ),
    {
        self.pause_gate()?;
        let pos = match self.position(contract_id) {
            Some(p) => p,
            None => return Err(Error::ContractNotFound),
        };
        if self.records[pos].finalization.is_some() {
            return Err(Error::AlreadyFinalized);
        }
        let c = self.records[pos].contract;
        if current_client != c.client {
            return Err(Error::UnauthorizedRole);
        }
        match c.status {
            ContractStatus::Created | ContractStatus::PartiallyFunded | ContractStatus::Funded => {},
            _ => return Err(Error::InvalidStatusTransition),
        }
        if new_client == c.freelancer || new_client == current_client {
            return Err(Error::InvalidParticipant);
        }
        let expires = compute_expiry(ledger.sequence, PENDING_MIGRATION_TTL_LEDGERS);
        self.store_migration(
            pos,
            c,
            Some(
                PendingClientMigration {
                    current_client,
                    proposed_client: new_client,
                    expires_at_ledger: expires,
                },
            ),
        );
        Ok(())
    }

    /// Accepts a live pending migration: `new_client` becomes the client
    /// (authorized by `new_client`).
    pub fn accept_client_migration(&mut self, contract_id: u32, new_client: Address, ledger: Ledger) -> (r:
        Result<(), Error>)
        requires
            old(self).wf(),
        ensures
            final(self).wf(),
            failed_unchanged(
                r,
                accept_migration_error(old(self)@, contract_id, new_client, ledger),
                old(self)@,
                final(self)@,
            ),
            r is Ok ==> final(self)@ == old(self)@.with_rec(
                contract_id,
                RecordView {
                    contract: Contract { client: new_client, ..old(self)@.rec(contract_id).contract },
                    migration: None,
                    ..old(self)@.rec(contract_id)
                },
            ),
    {
        self.pause_gate()?;
        let pos = match self.position(contract_id) {
            Some(p) => p,
            None => return Err(Error::ContractNotFound),
        };
        if self.records[pos].finalization.is_some() {
            return Err(Error::AlreadyFinalized);
        }
        let m = match self.records[pos].migration {
            Some(m) => {
                if ledger.sequence > m.expires_at_ledger {
                    return Err(Error::InvalidState);
                }
                m
            },
            None => return Err(Error::InvalidState),
        };
        if new_client != m.proposed_client {
            return Err(Error::UnauthorizedRole);
        }
        let c = self.records[pos].contract;
        if m.current_client != c.client {
            return Err(Error::InvalidState);
        }
        match c.status {
            ContractStatus::Created | ContractStatus::PartiallyFunded | ContractStatus::Funded => {},
            _ => return Err(Error::InvalidStatusTransition),
        }
        self.store_migration(pos, Contract { client: new_client, ..c }, None);
        Ok(())
    }

    /// Whether contract `contract_id` has a live pending migration.
    pub fn has_pending_client_migration(&self, contract_id: u32, ledger: Ledger) -> (r: bool)
        ensures
            r == (self@.has_contract(contract_id) && live_migration(
                self@.rec(contract_id),
                ledger.sequence,
            ) is Some),
    {
        match self.position(contract_id) {
            Some(p) => match self.records[p].migration {
                Some(m) => ledger.sequence <= m.expires_at_ledger,
                None => false,
            },
            None => false,
        }
    }

    /// The live pending migration of contract `contract_id`; `InvalidState`
    /// when there is none.
    pub fn get_pending_client_migration(&self, contract_id: u32, ledger: Ledger) -> (r: Result<
        PendingClientMigration,
        Error,
    >)
        ensures
            r == (if self@.has_contract(contract_id) && live_migration(
                self@.rec(contract_id),
                ledger.sequence,
            ) is Some {
                Ok(live_migration(self@.rec(contract_id), ledger.sequence)->Some_0)
            } else {
                Err(Error::InvalidState)
            }),
    {
        match self.position(contract_id) {
            Some(p) => match self.records[p].migration {
                Some(m) => if ledger.sequence <= m.expires_at_ledger {
                    Ok(m)
                } else {
                    Err(Error::InvalidState)
                },
                None => Err(Error::InvalidState),
            },
            None => Err(Error::InvalidState),
        }
    }
}

} // verus!
