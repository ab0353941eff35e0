//! One-time initialization, pause and emergency controls, settlement token,
//! protocol fee and governance administration.
use vstd::prelude::*;

use crate::state::{failed_unchanged, Escrow, EscrowView};
use crate::ttl::ADMIN_ROTATION_MIN_DELAY_LEDGERS;
use crate::types::{
    Address, Error, GovernedParameters, Ledger, PendingAdminProposal, ReadinessChecklist,
};

verus! {

/// `NotInitialized` unless `initialize` has run.
pub open spec fn init_error(v: EscrowView) -> Option<Error> {
    if !v.initialized {
        Some(Error::NotInitialized)
    } else {
        None
    }
}

pub open spec fn initialize_error(v: EscrowView) -> Option<Error> {
    if v.initialized {
        Some(Error::AlreadyInitialized)
    } else {
        None
    }
}

pub open spec fn unpause_error(v: EscrowView) -> Option<Error> {
    if !v.initialized {
        Some(Error::NotInitialized)
    } else if v.emergency {
        Some(Error::EmergencyActive)
    } else {
        None
    }
}

/// The checks of an operation that names the admin explicitly.
pub open spec fn admin_call_error(v: EscrowView, admin: Address) -> Option<Error> {
    if !v.initialized {
        Some(Error::NotInitialized)
    } else if v.admin != Some(admin) {
        Some(Error::UnauthorizedRole)
    } else {
        None
    }
}

/// `bind_settlement_token` needs an initialized escrow without a token.
pub open spec fn bind_settlement_token_error(v: EscrowView) -> Option<Error> {
    if !v.initialized {
        Some(Error::NotInitialized)
    } else if v.settlement_token is Some {
        Some(Error::SettlementTokenAlreadyBound)
    } else {
        None
    }
}

/// `set_protocol_fee_bps` needs an initialized escrow and a rate of at most
/// 100 % (10 000 basis points), the bound the governed parameters keep too.
pub open spec fn set_protocol_fee_bps_error(v: EscrowView, new_bps: u32) -> Option<Error> {
    if !v.initialized {
        Some(Error::NotInitialized)
    } else if new_bps > 10_000 {
        Some(Error::InvalidProtocolParameters)
    } else {
        None
    }
}

pub open spec fn set_governed_params_error(
    v: EscrowView,
    admin: Address,
    protocol_fee_bps: u32,
) -> Option<Error> {
    if admin_call_error(v, admin) is Some {
        admin_call_error(v, admin)
    } else if protocol_fee_bps > 10_000 {
        Some(Error::InvalidProtocolParameters)
    } else {
        None
    }
}

/// Whether the admin-rotation timelock has run out at ledger `sequence` for
/// a proposal made at `proposed_at`.
pub open spec fn timelock_elapsed(proposed_at: u32, sequence: u32) -> bool {
    sequence >= proposed_at + ADMIN_ROTATION_MIN_DELAY_LEDGERS
}

pub open spec fn accept_governance_admin_error(v: EscrowView, ledger: Ledger) -> Option<Error> {
    if !v.initialized {
        Some(Error::NotInitialized)
    } else if v.pending_admin is None {
        Some(Error::InvalidState)
    } else if !timelock_elapsed(v.pending_admin->Some_0.proposed_at_ledger, ledger.sequence) {
        Some(Error::TimelockNotElapsed)
    } else {
        None
    }
}

impl Escrow {
    /// Echoes its argument; a liveness probe for deployments.
    pub fn hello<T>(to: T) -> (r: T)
        ensures
            r == to,
    {
        to
    }

    /// Binds the operational admin. Single-use; the host must have the
    /// admin's authorization.
    pub fn initialize(&mut self, admin: Address) -> (r: Result<(), Error>)
        requires
            old(self).wf(),
        ensures
            final(self).wf(),
            failed_unchanged(r, initialize_error(old(self)@), old(self)@, final(self)@),
            r is Ok ==> final(self)@ == (EscrowView {
                initialized: true,
                admin: Some(admin),
                next_contract_id: 1,
                checklist: ReadinessChecklist { initialized: true, ..old(self)@.checklist },
                ..old(self)@
            }),
    {
        if self.initialized {
            return Err(Error::AlreadyInitialized);
        }
        self.initialized = true;
        self.admin = Some(admin);
        self.next_contract_id = 1;
        self.checklist.initialized = true;
        Ok(())
    }

    /// The stored admin address.
    pub fn get_admin(&self) -> (r: Option<Address>)
        ensures
            r == self@.admin,
    {
        self.admin
    }

    /// The mainnet readiness checklist.
    pub fn get_mainnet_readiness_info(&self) -> (r: ReadinessChecklist)
        ensures
            r == self@.checklist,
    {
        self.checklist
    }

    /// Pauses all state-changing escrow operations (admin-authorized).
    pub fn pause(&mut self) -> (r: Result<(), Error>)
        requires
            old(self).wf(),
        ensures
            final(self).wf(),
            failed_unchanged(r, init_error(old(self)@), old(self)@, final(self)@),
            r is Ok ==> final(self)@ == (EscrowView { paused: true, ..old(self)@ }),
    {
        if !self.initialized {
            return Err(Error::NotInitialized);
        }
        self.paused = true;
        Ok(())
    }

    /// Clears the pause flag; refused while an emergency is active
    /// (admin-authorized).
    pub fn unpause(&mut self) -> (r: Result<(), Error>)
        requires
            old(self).wf(),
        ensures
            final(self).wf(),
            failed_unchanged(r, unpause_error(old(self)@), old(self)@, final(self)@),
            r is Ok ==> final(self)@ == (EscrowView { paused: false, ..old(self)@ }),
    {
        if !self.initialized {
            return Err(Error::NotInitialized);
        }
        if self.emergency {
            return Err(Error::EmergencyActive);
        }
        self.paused = false;
        Ok(())
    }

    pub fn is_paused(&self) -> (r: bool)
        ensures
            r == self@.paused,
    {
        self.paused
    }

    pub fn is_emergency(&self) -> (r: bool)
        ensures
            r == self@.emergency,
    {
        self.emergency
    }

    /// Sets both the emergency and the pause flag and records that emergency
    /// controls have been exercised (admin-authorized).
    pub fn activate_emergency_pause(&mut self) -> (r: Result<(), Error>)
        requires
            old(self).wf(),
        ensures
            final(self).wf(),
            failed_unchanged(r, init_error(old(self)@), old(self)@, final(self)@),
            r is Ok ==> final(self)@ == (EscrowView {
                emergency: true,
                paused: true,
                checklist: ReadinessChecklist {
                    emergency_controls_enabled: true,
                    ..old(self)@.checklist
                },
                ..old(self)@
            }),
    {
        if self.admin.is_none() {
            return Err(Error::NotInitialized);
        }
        self.emergency = true;
        self.paused = true;
        self.checklist.emergency_controls_enabled = true;
        Ok(())
    }

    /// Clears both the emergency and the pause flag (admin-authorized).
    pub fn resolve_emergency(&mut self) -> (r: Result<(), Error>)
        requires
            old(self).wf(),
        ensures
            final(self).wf(),
            failed_unchanged(r, init_error(old(self)@), old(self)@, final(self)@),
            r is Ok ==> final(self)@ == (EscrowView {
                emergency: false,
                paused: false,
                checklist: ReadinessChecklist {
                    emergency_controls_enabled: true,
                    ..old(self)@.checklist
                },
                ..old(self)@
            }),
    {
        if !self.initialized {
            return Err(Error::NotInitialized);
        }
        self.emergency = false;
        self.paused = false;
        self.checklist.emergency_controls_enabled = true;
        Ok(())
    }

    /// Binds the settlement token in which deposits and payouts move.
    pub fn set_settlement_token(&mut self, admin: Address, token: Address) -> (r: Result<
        (),
        Error,
    >)
        requires
            old(self).wf(),
        ensures
            final(self).wf(),
            failed_unchanged(r, admin_call_error(old(self)@, admin), old(self)@, final(self)@),
            r is Ok ==> final(self)@ == (EscrowView { settlement_token: Some(token), ..old(self)@ }),
    {
        if !self.initialized {
            return Err(Error::NotInitialized);
        }
        match self.admin {
            Some(stored) => {
                if stored != admin {
                    return Err(Error::UnauthorizedRole);
                }
            },
            None => return Err(Error::NotInitialized),
        }
        self.settlement_token = Some(token);
        Ok(())
    }

    /// Binds the settlement token once; a bound token cannot be replaced
    /// this way (admin-authorized).
    pub fn bind_settlement_token(&mut self, token: Address) -> (r: Result<(), Error>)
        requires
            old(self).wf(),
        ensures
            final(self).wf(),
            failed_unchanged(r, bind_settlement_token_error(old(self)@), old(self)@, final(self)@),
            r is Ok ==> final(self)@ == (EscrowView { settlement_token: Some(token), ..old(self)@ }),
    {
        if !self.initialized {
            return Err(Error::NotInitialized);
        }
        if self.settlement_token.is_some() {
            return Err(Error::SettlementTokenAlreadyBound);
        }
        self.settlement_token = Some(token);
        Ok(())
    }

    /// The bound settlement token, if any.
    pub fn get_settlement_token(&self) -> (r: Option<Address>)
        ensures
            r == self@.settlement_token,
    {
        self.settlement_token
    }

    /// Sets the protocol fee taken from each milestone release, in basis
    /// points (admin-authorized).
    pub fn set_protocol_fee_bps(&mut self, new_bps: u32) -> (r: Result<(), Error>)
        requires
            old(self).wf(),
        ensures
            final(self).wf(),
            failed_unchanged(
                r,
                set_protocol_fee_bps_error(old(self)@, new_bps),
                old(self)@,
                final(self)@,
            ),
            r is Ok ==> final(self)@ == (EscrowView { protocol_fee_bps: new_bps, ..old(self)@ }),
    {
        if !self.initialized {
            return Err(Error::NotInitialized);
        }
        if new_bps > 10_000 {
            return Err(Error::InvalidProtocolParameters);
        }
        self.protocol_fee_bps = new_bps;
        Ok(())
    }

    /// The current protocol fee in basis points.
    pub fn get_protocol_fee_bps(&self) -> (r: u32)
        ensures
            r == self@.protocol_fee_bps,
    {
        self.protocol_fee_bps
    }

    /// The current protocol fee in basis points, under its query name.
    pub fn get_protocol_fee_bps_view(&self) -> (r: u32)
        ensures
            r == self@.protocol_fee_bps,
    {
        self.get_protocol_fee_bps()
    }

    /// The protocol fees retained so far.
    pub fn get_accumulated_protocol_fees(&self) -> (r: i128)
        ensures
            r == self@.accumulated_fees,
    {
        self.accumulated_fees
    }

    /// Proposes `proposed` as the next governance admin; the proposal can be
    /// accepted once the rotation timelock has run (admin-authorized).
    pub fn propose_governance_admin(&mut self, proposed: Address, ledger: Ledger) -> (r: Result<
        (),
        Error,
    >)
        requires
            old(self).wf(),
        ensures
            final(self).wf(),
            failed_unchanged(r, init_error(old(self)@), old(self)@, final(self)@),
            r is Ok ==> final(self)@ == (EscrowView {
                pending_admin: Some(
                    PendingAdminProposal { proposed, proposed_at_ledger: ledger.sequence },
                ),
                ..old(self)@
            }),
    {
        if !self.initialized {
            return Err(Error::NotInitialized);
        }
        self.pending_admin = Some(
            PendingAdminProposal { proposed, proposed_at_ledger: ledger.sequence },
        );
        Ok(())
    }

    /// Makes the pending proposal the admin once the timelock has run
    /// (authorized by the proposed admin).
    pub fn accept_governance_admin(&mut self, ledger: Ledger) -> (r: Result<(), Error>)
        requires
            old(self).wf(),
        ensures
            final(self).wf(),
            failed_unchanged(
                r,
                accept_governance_admin_error(old(self)@, ledger),
                old(self)@,
                final(self)@,
            ),
            r is Ok ==> final(self)@ == (EscrowView {
                admin: Some(old(self)@.pending_admin->Some_0.proposed),
                pending_admin: None,
                ..old(self)@
            }),
    {
        if !self.initialized {
            return Err(Error::NotInitialized);
        }
        match self.pending_admin {
            None => Err(Error::InvalidState),
            Some(p) => {
                if (ledger.sequence as u64) < (p.proposed_at_ledger as u64)
                    + (ADMIN_ROTATION_MIN_DELAY_LEDGERS as u64) {
                    return Err(Error::TimelockNotElapsed);
                }
                self.admin = Some(p.proposed);
                self.pending_admin = None;
                Ok(())
            },
        }
    }

    /// The proposed governance admin, if any.
    pub fn get_pending_governance_admin(&self) -> (r: Option<Address>)
        ensures
            r == (match self@.pending_admin {
                Some(p) => Some(p.proposed),
                None => None,
            }),
    {
        match self.pending_admin {
            Some(p) => Some(p.proposed),
            None => None,
        }
    }

    /// The ledger at which the pending admin proposal was made, if any.
    pub fn get_pending_governance_admin_proposed_at(&self) -> (r: Option<u32>)
        ensures
            r == (match self@.pending_admin {
                Some(p) => Some(p.proposed_at_ledger),
                None => None,
            }),
    {
        match self.pending_admin {
            Some(p) => Some(p.proposed_at_ledger),
            None => None,
        }
    }

    /// The current governance admin.
    pub fn get_governance_admin(&self) -> (r: Option<Address>)
        ensures
            r == self@.admin,
    {
        self.admin
    }

    /// Sets both governance parameters and marks them set in the readiness
    /// checklist (authorized by `admin`, which must be the stored admin).
    pub fn set_governed_params(
        &mut self,
        admin: Address,
        protocol_fee_bps: u32,
        max_escrow_total_stroops: i128,
    ) -> (r: Result<(), Error>)
        requires
            old(self).wf(),
        ensures
            final(self).wf(),
            failed_unchanged(
                r,
                set_governed_params_error(old(self)@, admin, protocol_fee_bps),
                old(self)@,
                final(self)@,
            ),
            r is Ok ==> final(self)@ == (EscrowView {
                governed_params: Some(
                    GovernedParameters { protocol_fee_bps, max_escrow_total_stroops },
                ),
                checklist: ReadinessChecklist { governed_params_set: true, ..old(self)@.checklist },
                ..old(self)@
            }),
    {
        if !self.initialized {
            return Err(Error::NotInitialized);
        }
        match self.admin {
            Some(stored) => {
                if stored != admin {
                    return Err(Error::UnauthorizedRole);
                }
            },
            None => return Err(Error::NotInitialized),
        }
        if protocol_fee_bps > 10_000 {
            return Err(Error::InvalidProtocolParameters);
        }
        self.governed_params = Some(GovernedParameters { protocol_fee_bps, max_escrow_total_stroops });
        self.checklist.governed_params_set = true;
        Ok(())
    }

    /// The governed parameters, if set.
    pub fn get_governed_parameters(&self) -> (r: Option<GovernedParameters>)
        ensures
            r == self@.governed_params,
    {
        self.governed_params
    }
}

} // verus!
