//! Cancelling contracts and raising and resolving disputes.
use vstd::prelude::*;

use crate::dispute::{
    final_status_after_resolution, lemma_payouts_conserve_balance, payouts, resolution_payouts,
    status_after_resolution, DisputeResolution,
};
use crate::state::{
    accounting_sound, credit_of, failed_unchanged, holds_deposits, pause_error, record_wf,
    records_view, Escrow,
    EscrowView, RecordView,
};
use crate::types::{Address, Contract, ContractStatus, Error, Transfer};

verus! {

/// The payouts a dispute resolution asks the host to make from the escrow's
/// account in the settlement token.
#[derive(Clone, Copy, Debug, PartialEq, Eq, Structural)]
pub struct ResolutionReceipt {
    /// The part of the held balance returned to the client.
    pub client_payout: Transfer,
    /// The part of the held balance released to the freelancer.
    pub freelancer_payout: Transfer,
}

/// The first check that `cancel_contract` fails, if any.
pub open spec fn cancel_error(v: EscrowView, contract_id: u32, caller: Address) -> Option<Error> {
    let c = v.rec(contract_id).contract;
    if pause_error(v) is Some {
        pause_error(v)
    } else if !v.has_contract(contract_id) {
        Some(Error::ContractNotFound)
    } else if caller != c.client && caller != c.freelancer {
        Some(Error::UnauthorizedRole)
    } else if !(c.status is Created || c.status is PartiallyFunded || c.status is Funded) {
        Some(Error::InvalidState)
    } else if v.rec(contract_id).finalization is Some {
        Some(Error::AlreadyFinalized)
    } else {
        None
    }
}

/// The state with the status of contract `contract_id` set to `status`.
pub open spec fn with_status(v: EscrowView, contract_id: u32, status: ContractStatus) -> EscrowView {
    let r = v.rec(contract_id);
    v.with_rec(contract_id, RecordView { contract: Contract { status, ..r.contract }, ..r })
}

/// The first check that `raise_dispute` fails, if any.
pub open spec fn raise_dispute_error(v: EscrowView, contract_id: u32, caller: Address) -> Option<Error> {
    let c = v.rec(contract_id).contract;
    if pause_error(v) is Some {
        pause_error(v)
    } else if !v.has_contract(contract_id) {
        Some(Error::ContractNotFound)
    } else if v.rec(contract_id).finalization is Some {
        Some(Error::AlreadyFinalized)
    } else if caller != c.client && caller != c.freelancer {
        Some(Error::UnauthorizedRole)
    } else if c.arbiter is None {
        Some(Error::ArbiterRequired)
    } else if !(c.status is Funded || c.status is PartiallyFunded) {
        Some(Error::InvalidState)
    } else {
        None
    }
}

/// The contract after a resolution paying `client` to the client and
/// `freelancer` to the freelancer.
pub open spec fn resolved_contract(c: Contract, client: i128, freelancer: i128) -> Contract {
    let c2 = Contract {
        refunded_amount: (c.refunded_amount + client) as i128,
        released_amount: (c.released_amount + freelancer) as i128,
        ..c
    };
    Contract { status: status_after_resolution(c2), ..c2 }
}

/// The first check that `resolve_dispute` fails, if any.
pub open spec fn resolve_dispute_error(
    v: EscrowView,
    contract_id: u32,
    arbiter: Address,
    resolution: DisputeResolution,
) -> Option<Error> {
    let c = v.rec(contract_id).contract;
    let p = payouts(c, resolution);
    if pause_error(v) is Some {
        pause_error(v)
    } else if !v.has_contract(contract_id) {
        Some(Error::ContractNotFound)
    } else if v.rec(contract_id).finalization is Some {
        Some(Error::AlreadyFinalized)
    } else if !(c.status is Disputed) {
        Some(Error::InvalidStatusTransition)
    } else if c.arbiter != Some(arbiter) {
        Some(Error::UnauthorizedRole)
    } else if p is Err {
        Some(p->Err_0)
    } else if c.refunded_amount + p->Ok_0.0 > i128::MAX || c.released_amount + p->Ok_0.1
        > i128::MAX {
        Some(Error::PotentialOverflow)
    } else if c.released_amount + p->Ok_0.1 + c.refunded_amount + p->Ok_0.0 != c.funded_amount {
        Some(Error::AccountingInvariantViolated)
    } else if resolved_contract(c, p->Ok_0.0, p->Ok_0.1).status is Completed && credit_of(
        v,
        c.freelancer,
    ) + 1 > i128::MAX {
        Some(Error::PotentialOverflow)
    } else {
        None
    }
}

/// The payouts of a resolution of contract `contract_id`.
pub open spec fn resolution_receipt(v: EscrowView, contract_id: u32, resolution: DisputeResolution) -> ResolutionReceipt {
    let c = v.rec(contract_id).contract;
    let p = payouts(c, resolution)->Ok_0;
    let token = v.settlement_token->Some_0;
    ResolutionReceipt {
        client_payout: Transfer::FromEscrow { token, to: c.client, amount: p.0 },
        freelancer_payout: Transfer::FromEscrow { token, to: c.freelancer, amount: p.1 },
    }
}

/// The state after a dispute of contract `contract_id` is resolved.
pub open spec fn resolved_state(v: EscrowView, contract_id: u32, resolution: DisputeResolution) -> EscrowView {
    let r = v.rec(contract_id);
    let c = r.contract;
    let p = payouts(c, resolution)->Ok_0;
    let c2 = resolved_contract(c, p.0, p.1);
    let v2 = v.with_rec(contract_id, RecordView { contract: c2, ..r });
    EscrowView {
        credits: if c2.status is Completed {
            v.credits.insert(c.freelancer, (credit_of(v, c.freelancer) + 1) as i128)
        } else {
            v.credits
        },
        ..v2
    }
}

impl Escrow {
    /// Replaces the contract of record `pos` by `c`, keeping the rest.
    fn store_contract(&mut self, pos: usize, c: Contract)
        requires
            old(self).wf(),
            pos < old(self)@.records.len(),
            accounting_sound(c),
            c.total_deposited == c.funded_amount,
            old(self)@.records[pos as int].finalization is None,
            c.funded_amount == old(self)@.records[pos as int].contract.funded_amount,
            holds_deposits(c.status) ==> old(self)@.settlement_token is Some,
        ensures
            final(self).wf(),
            final(self)@ == old(self)@.with_rec(
                (pos + 1) as u32,
                RecordView { contract: c, ..old(self)@.records[pos as int] },
            ),
    {
        let ghost old_view = self@;
        let ghost old_records = self.records@;
        self.records[pos].contract = c;
        proof {
            let expected = RecordView { contract: c, ..old_view.records[pos as int] };
            assert(self.records@[pos as int]@ == expected);
            assert forall|k: int| 0 <= k < self.records@.len() && k != pos implies records_view(
                self.records@,
            )[k] == old_view.records[k] by {
                assert(self.records@[k] == old_records[k]);
            }
            assert(self@.records =~= old_view.records.update(pos as int, expected));
            assert(record_wf(old_view.records[pos as int]));
            assert(record_wf(expected));
            assert forall|k: int|
                0 <= k < self@.records.len() && holds_deposits(
                    #[trigger] self@.records[k].contract.status,
                ) implies self@.settlement_token is Some by {
                if k != pos {
                    assert(self@.records[k] == old_view.records[k]);
                    assert(holds_deposits(old_view.records[k].contract.status));
                }
            }
        }
    }

    /// Cancels a contract that has not been fully settled (authorized by the
    /// client or the freelancer). Funds stay where they are.
    pub fn cancel_contract(&mut self, contract_id: u32, caller: Address) -> (r: Result<(), Error>)
        requires
            old(self).wf(),
        ensures
            final(self).wf(),
            failed_unchanged(r, cancel_error(old(self)@, contract_id, caller), old(self)@, final(self)@),
            r is Ok ==> final(self)@ == with_status(old(self)@, contract_id, ContractStatus::Cancelled),
    {
        self.pause_gate()?;
        let pos = match self.position(contract_id) {
            Some(p) => p,
            None => return Err(Error::ContractNotFound),
        };
        proof {
            assert(record_wf(self@.records[pos as int]));
        }
        let c = self.records[pos].contract;
        if caller != c.client && caller != c.freelancer {
            return Err(Error::UnauthorizedRole);
        }
        match c.status {
            ContractStatus::Created | ContractStatus::PartiallyFunded | ContractStatus::Funded => {},
            _ => return Err(Error::InvalidState),
        }
        if self.records[pos].finalization.is_some() {
            return Err(Error::AlreadyFinalized);
        }
        self.store_contract(pos, Contract { status: ContractStatus::Cancelled, ..c });
        Ok(())
    }

    /// Opens a dispute on a funded contract that has an arbiter (authorized
    /// by the client or the freelancer).
    pub fn raise_dispute(&mut self, contract_id: u32, caller: Address) -> (r: Result<(), Error>)
        requires
            old(self).wf(),
        ensures
            final(self).wf(),
            failed_unchanged(
                r,
                raise_dispute_error(old(self)@, contract_id, caller),
                old(self)@,
                final(self)@,
            ),
            r is Ok ==> final(self)@ == with_status(old(self)@, contract_id, ContractStatus::Disputed),
    {
        self.pause_gate()?;
        let pos = match self.position(contract_id) {
            Some(p) => p,
            None => return Err(Error::ContractNotFound),
        };
        proof {
            assert(record_wf(self@.records[pos as int]));
        }
        if self.records[pos].finalization.is_some() {
            return Err(Error::AlreadyFinalized);
        }
        let c = self.records[pos].contract;
        if caller != c.client && caller != c.freelancer {
            return Err(Error::UnauthorizedRole);
        }
        if c.arbiter.is_none() {
            return Err(Error::ArbiterRequired);
        }
        match c.status {
            ContractStatus::Funded | ContractStatus::PartiallyFunded => {},
            _ => return Err(Error::InvalidState),
        }
        self.store_contract(pos, Contract { status: ContractStatus::Disputed, ..c });
        Ok(())
    }

    /// Applies the arbiter's resolution to the balance still held for a
    /// disputed contract and returns the payouts the host must make
    /// (arbiter-authorized).
    pub fn resolve_dispute(
        &mut self,
        contract_id: u32,
        arbiter: Address,
        resolution: DisputeResolution,
    ) -> (r: Result<ResolutionReceipt, Error>)
        requires
            old(self).wf(),
        ensures
            final(self).wf(),
            failed_unchanged(
                r,
                resolve_dispute_error(old(self)@, contract_id, arbiter, resolution),
                old(self)@,
                final(self)@,
            ),
            r matches Ok(receipt) ==> {
                &&& receipt == resolution_receipt(old(self)@, contract_id, resolution)
                &&& final(self)@ == resolved_state(old(self)@, contract_id, resolution)
            },
    {
        self.pause_gate()?;
        let pos = match self.position(contract_id) {
            Some(p) => p,
            None => return Err(Error::ContractNotFound),
        };
        proof {
            assert(record_wf(self@.records[pos as int]));
        }
        if self.records[pos].finalization.is_some() {
            return Err(Error::AlreadyFinalized);
        }
        let c = self.records[pos].contract;
        if c.status != ContractStatus::Disputed {
            return Err(Error::InvalidStatusTransition);
        }
        match c.arbiter {
            Some(a) => {
                if a != arbiter {
                    return Err(Error::UnauthorizedRole);
                }
            },
            None => return Err(Error::UnauthorizedRole),
        }
        let (client_payout, freelancer_payout) = resolution_payouts(&c, &resolution)?;
        proof {
            assert(holds_deposits(self@.records[pos as int].contract.status));
        }
        let token = self.settlement_token.unwrap();
        let refunded = match c.refunded_amount.checked_add(client_payout) {
            Some(v) => v,
            None => return Err(Error::PotentialOverflow),
        };
        let released = match c.released_amount.checked_add(freelancer_payout) {
            Some(v) => v,
            None => return Err(Error::PotentialOverflow),
        };
        match released.checked_add(refunded) {
            Some(t) => {
                if t != c.funded_amount {
                    return Err(Error::AccountingInvariantViolated);
                }
            },
            None => return Err(Error::AccountingInvariantViolated),
        }
        proof {
            lemma_payouts_conserve_balance(c, resolution);
        }
        let c1 = Contract { refunded_amount: refunded, released_amount: released, ..c };
        let status = final_status_after_resolution(&c1);
        let c2 = Contract { status, ..c1 };
        let freelancer = c.freelancer;
        let credit = self.credit(&freelancer);
        if status == ContractStatus::Completed && credit == i128::MAX {
            return Err(Error::PotentialOverflow);
        }
        self.store_contract(pos, c2);
        if status == ContractStatus::Completed {
            self.set_credit(freelancer, credit + 1);
        }
        Ok(
            ResolutionReceipt {
                client_payout: Transfer::FromEscrow { token, to: c.client, amount: client_payout },
                freelancer_payout: Transfer::FromEscrow {
                    token,
                    to: c.freelancer,
                    amount: freelancer_payout,
                },
            },
        )
    }
}

} // verus!
