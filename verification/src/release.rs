//! Milestone approvals and releases.
use vstd::prelude::*;

use crate::amounts::{calculate_protocol_fee, lemma_fee_bounded, protocol_fee};
use crate::dispute::available_balance;
use crate::state::{
    all_settled, credit_of, failed_unchanged, milestone_wf, milestones_view,
    pause_error, record_wf, records_view, Escrow, EscrowView, RecordView,
};
use crate::ttl::{compute_expiry, expiry, PENDING_APPROVAL_TTL_LEDGERS};
use crate::types::{
    Address, Contract, ContractStatus, Error, Ledger, Milestone, MilestoneApprovals, MilestoneView,
    ReleaseAuthorization, StoredApprovals, Transfer,
};

verus! {

/// What a successful release hands back: the payout the host must make,
/// the protocol fee retained, and whether the release completed the contract.
#[derive(Clone, Copy, Debug, PartialEq, Eq, Structural)]
pub struct ReleaseReceipt {
    pub payout: Transfer,
    pub fee: i128,
    pub completed: bool,
}

/// Whether `caller` may approve and release milestones of `c` under its
/// release authorization mode.
pub open spec fn may_act(c: Contract, caller: Address) -> bool {
    match c.release_authorization {
        ReleaseAuthorization::ClientOnly => caller == c.client,
        ReleaseAuthorization::ArbiterOnly => c.arbiter == Some(caller),
        ReleaseAuthorization::ClientAndArbiter => caller == c.client || c.arbiter == Some(caller),
        ReleaseAuthorization::MultiSig => caller == c.client || caller == c.freelancer,
    }
}

/// The statuses in which milestones can be approved and released: funded in
/// full, or in part (a milestone still needs its own funding to be released).
pub open spec fn accepts_releases(status: ContractStatus) -> bool {
    status is Funded || status is PartiallyFunded
}

/// Whether the approvals recorded for a milestone allow its release.
pub open spec fn approvals_satisfied(mode: ReleaseAuthorization, a: MilestoneApprovals) -> bool {
    match mode {
        ReleaseAuthorization::ClientOnly => a.client_approved,
        ReleaseAuthorization::ArbiterOnly => a.arbiter_approved,
        ReleaseAuthorization::ClientAndArbiter => a.client_approved || a.arbiter_approved,
        ReleaseAuthorization::MultiSig => a.client_approved && a.freelancer_approved,
    }
}

/// The approvals in a slot that are still live at ledger `sequence`.
pub open spec fn live_approvals(slot: Option<StoredApprovals>, sequence: u32) -> Option<
    MilestoneApprovals,
> {
    match slot {
        Some(s) => if sequence <= s.live_until_ledger {
            Some(s.approvals)
        } else {
            None
        },
        None => None,
    }
}

pub open spec fn no_approvals() -> MilestoneApprovals {
    MilestoneApprovals { client_approved: false, freelancer_approved: false, arbiter_approved: false }
}

/// The live approvals of a slot, or none at all.
pub open spec fn current_approvals(slot: Option<StoredApprovals>, sequence: u32) -> MilestoneApprovals {
    match live_approvals(slot, sequence) {
        Some(a) => a,
        None => no_approvals(),
    }
}

/// Whether the flag of `caller`'s role is already set in `a`.
pub open spec fn already_approved(c: Contract, a: MilestoneApprovals, caller: Address) -> bool {
    if caller == c.client {
        a.client_approved
    } else if caller == c.freelancer {
        a.freelancer_approved
    } else {
        a.arbiter_approved
    }
}

/// `a` with the flag of `caller`'s role set.
pub open spec fn with_approval(c: Contract, a: MilestoneApprovals, caller: Address) -> MilestoneApprovals {
    if caller == c.client {
        MilestoneApprovals { client_approved: true, ..a }
    } else if caller == c.freelancer {
        MilestoneApprovals { freelancer_approved: true, ..a }
    } else {
        MilestoneApprovals { arbiter_approved: true, ..a }
    }
}

/// The first check that `approve_milestone_release` fails, if any.
pub open spec fn approve_error(
    v: EscrowView,
    contract_id: u32,
    caller: Address,
    milestone_index: u32,
    ledger: Ledger,
) -> Option<Error> {
    if pause_error(v) is Some {
        pause_error(v)
    } else if v.is_finalized(contract_id) {
        Some(Error::AlreadyFinalized)
    } else if !v.has_contract(contract_id) {
        Some(Error::ContractNotFound)
    } else if !may_act(v.rec(contract_id).contract, caller) {
        Some(Error::UnauthorizedRole)
    } else if !accepts_releases(v.rec(contract_id).contract.status) {
        Some(Error::InvalidState)
    } else if milestone_index >= v.rec(contract_id).milestones.len() {
        Some(Error::IndexOutOfBounds)
    } else if already_approved(
        v.rec(contract_id).contract,
        current_approvals(v.rec(contract_id).approvals[milestone_index as int], ledger.sequence),
        caller,
    ) {
        Some(Error::AlreadyApproved)
    } else {
        None
    }
}

/// The record after `caller` approved milestone `i` at `ledger`.
pub open spec fn approved_record(r: RecordView, i: int, caller: Address, ledger: Ledger) -> RecordView {
    RecordView {
        approvals: r.approvals.update(
            i,
            Some(
                StoredApprovals {
                    approvals: with_approval(
                        r.contract,
                        current_approvals(r.approvals[i], ledger.sequence),
                        caller,
                    ),
                    live_until_ledger: expiry(ledger.sequence, PENDING_APPROVAL_TTL_LEDGERS),
                },
            ),
        ),
        ..r
    }
}

/// The fee retained on a release of `amount` in state `v`, or `None` when
/// computing it overflows.
pub open spec fn release_fee(v: EscrowView, amount: i128) -> Option<i128> {
    if v.initialized && v.protocol_fee_bps > 0 {
        protocol_fee(amount, v.protocol_fee_bps)
    } else {
        Some(0)
    }
}

/// The milestones after milestone `i` is released.
pub open spec fn released_milestones(ms: Seq<MilestoneView>, i: int) -> Seq<MilestoneView> {
    ms.update(i, MilestoneView { released: true, funded_amount: ms[i].amount, ..ms[i] })
}

/// The first check that `release_milestone` fails, if any.
pub open spec fn release_error(
    v: EscrowView,
    contract_id: u32,
    caller: Address,
    milestone_index: u32,
    ledger: Ledger,
) -> Option<Error> {
    let r = v.rec(contract_id);
    let c = r.contract;
    let i = milestone_index as int;
    if pause_error(v) is Some {
        pause_error(v)
    } else if !v.has_contract(contract_id) {
        Some(Error::ContractNotFound)
    } else if r.finalization is Some {
        Some(Error::AlreadyFinalized)
    } else if !accepts_releases(c.status) {
        Some(Error::InvalidState)
    } else if !may_act(c, caller) {
        Some(Error::UnauthorizedRole)
    } else if i >= r.milestones.len() {
        Some(Error::InvalidMilestone)
    } else if r.milestones[i].released {
        Some(Error::AlreadyReleased)
    } else if r.milestones[i].refunded {
        Some(Error::AlreadyRefunded)
    } else if !(live_approvals(r.approvals[i], ledger.sequence) matches Some(a)
        && approvals_satisfied(c.release_authorization, a)) {
        Some(Error::InsufficientApprovals)
    } else if r.milestones[i].funded_amount < r.milestones[i].amount {
        Some(Error::InsufficientFunds)
    } else if available_balance(c) < r.milestones[i].amount {
        Some(Error::InsufficientFunds)
    } else if v.settlement_token is None {
        Some(Error::SettlementTokenNotConfigured)
    } else if release_fee(v, r.milestones[i].amount) is None {
        Some(Error::PotentialOverflow)
    } else if v.accumulated_fees + release_fee(v, r.milestones[i].amount)->Some_0 > i128::MAX {
        Some(Error::PotentialOverflow)
    } else if all_settled(released_milestones(r.milestones, i)) && credit_of(v, c.freelancer) + 1
        > i128::MAX {
        Some(Error::PotentialOverflow)
    } else {
        None
    }
}

/// The state after milestone `i` of contract `contract_id` is released.
pub open spec fn released_state(v: EscrowView, contract_id: u32, i: int) -> EscrowView {
    let r = v.rec(contract_id);
    let c = r.contract;
    let amount = r.milestones[i].amount;
    let ms = released_milestones(r.milestones, i);
    let completed = all_settled(ms);
    let v2 = v.with_rec(
        contract_id,
        RecordView {
            contract: Contract {
                released_amount: (c.released_amount + amount) as i128,
                status: if completed {
                    ContractStatus::Completed
                } else {
                    c.status
                },
                ..c
            },
            milestones: ms,
            approvals: r.approvals.update(i, None),
            ..r
        },
    );
    EscrowView {
        accumulated_fees: (v.accumulated_fees + release_fee(v, amount)->Some_0) as i128,
        credits: if completed {
            v.credits.insert(c.freelancer, (credit_of(v, c.freelancer) + 1) as i128)
        } else {
            v.credits
        },
        ..v2
    }
}

/// The receipt of a release of milestone `i` of contract `contract_id`.
pub open spec fn release_receipt(v: EscrowView, contract_id: u32, i: int) -> ReleaseReceipt {
    let r = v.rec(contract_id);
    let amount = r.milestones[i].amount;
    ReleaseReceipt {
        payout: Transfer::FromEscrow {
            token: v.settlement_token->Some_0,
            to: r.contract.freelancer,
            amount: (amount - release_fee(v, amount)->Some_0) as i128,
        },
        fee: release_fee(v, amount)->Some_0,
        completed: all_settled(released_milestones(r.milestones, i)),
    }
}

/// Whether `caller` may act on `c` under its authorization mode.
fn may_act_exec(c: &Contract, caller: &Address) -> (r: bool)
    ensures
        r == may_act(*c, *caller),
{
    let is_client = *caller == c.client;
    let is_freelancer = *caller == c.freelancer;
    let is_arbiter = match c.arbiter {
        Some(a) => a == *caller,
        None => false,
    };
    match c.release_authorization {
        ReleaseAuthorization::ClientOnly => is_client,
        ReleaseAuthorization::ArbiterOnly => is_arbiter,
        ReleaseAuthorization::ClientAndArbiter => is_client || is_arbiter,
        ReleaseAuthorization::MultiSig => is_client || is_freelancer,
    }
}

fn live_approvals_exec(slot: Option<StoredApprovals>, sequence: u32) -> (r: Option<MilestoneApprovals>)
    ensures
        r == live_approvals(slot, sequence),
{
    match slot {
        Some(s) => if sequence <= s.live_until_ledger {
            Some(s.approvals)
        } else {
            None
        },
        None => None,
    }
}

/// Whether every milestone would be settled once milestone `i` is released.
fn settled_after_release(ms: &Vec<Milestone>, i: usize) -> (r: bool)
    requires
        i < ms@.len(),
    ensures
        r == all_settled(released_milestones(milestones_view(ms@), i as int)),
{
    let ghost target = released_milestones(milestones_view(ms@), i as int);
    let mut k: usize = 0;
    while k < ms.len()
        invariant
            i < ms@.len(),
            k <= ms@.len(),
            target == released_milestones(milestones_view(ms@), i as int),
            forall|j: int| 0 <= j < k ==> (#[trigger] target[j]).released || target[j].refunded,
        decreases ms@.len() - k,
    {
        if k != i && !(ms[k].released || ms[k].refunded) {
            assert(!(target[k as int].released || target[k as int].refunded));
            return false;
        }
        k = k + 1;
    }
    true
}

impl Escrow {
    /// Records `caller`'s approval of a milestone for release; the approval
    /// stays live for `PENDING_APPROVAL_TTL_LEDGERS` (caller-authorized).
    pub fn approve_milestone_release(
        &mut self,
        contract_id: u32,
        caller: Address,
        milestone_index: u32,
        ledger: Ledger,
    ) -> (r: Result<(), Error>)
        requires
            old(self).wf(),
        ensures
            final(self).wf(),
            failed_unchanged(
                r,
                approve_error(old(self)@, contract_id, caller, milestone_index, ledger),
                old(self)@,
                final(self)@,
            ),
            r is Ok ==> final(self)@ == old(self)@.with_rec(
                contract_id,
                approved_record(old(self)@.rec(contract_id), milestone_index as int, caller, ledger),
            ),
    {
        self.pause_gate()?;
        let pos = match self.position(contract_id) {
            Some(p) => p,
            None => return Err(Error::ContractNotFound),
        };
        proof {
            assert(record_wf(self@.records[pos as int]));
        }
        if self.records[pos].finalization.is_some() {
            return Err(Error::AlreadyFinalized);
        }
        let c = self.records[pos].contract;
        if !may_act_exec(&c, &caller) {
            return Err(Error::UnauthorizedRole);
        }
        match c.status {
            ContractStatus::Funded | ContractStatus::PartiallyFunded => {},
            _ => return Err(Error::InvalidState),
        }
        let i = milestone_index as usize;
        if i >= self.records[pos].milestones.len() {
            return Err(Error::IndexOutOfBounds);
        }
        let base = match live_approvals_exec(self.records[pos].approvals[i], ledger.sequence) {
            Some(a) => a,
            None => MilestoneApprovals {
                client_approved: false,
                freelancer_approved: false,
                arbiter_approved: false,
            },
        };
        let updated = if caller == c.client {
            if base.client_approved {
                return Err(Error::AlreadyApproved);
            }
            MilestoneApprovals { client_approved: true, ..base }
        } else if caller == c.freelancer {
            if base.freelancer_approved {
                return Err(Error::AlreadyApproved);
            }
            MilestoneApprovals { freelancer_approved: true, ..base }
        } else {
            if base.arbiter_approved {
                return Err(Error::AlreadyApproved);
            }
            MilestoneApprovals { arbiter_approved: true, ..base }
        };
        let ghost old_view = self@;
        let ghost old_records = self.records@;
        let live_until = compute_expiry(ledger.sequence, PENDING_APPROVAL_TTL_LEDGERS);
        self.records[pos].approvals[i] = Some(
            StoredApprovals { approvals: updated, live_until_ledger: live_until },
        );
        proof {
            let expected = approved_record(old_view.records[pos as int], i as int, caller, ledger);
            assert(self.records@[pos as int]@.approvals =~= expected.approvals);
            assert(self.records@[pos as int]@ == expected);
            assert forall|k: int| 0 <= k < self.records@.len() && k != pos implies records_view(
                self.records@,
            )[k] == old_view.records[k] by {
                assert(self.records@[k] == old_records[k]);
            }
            assert(self@.records =~= old_view.records.update(pos as int, expected));
            assert(record_wf(expected));
        }
        Ok(())
    }

    /// The live approvals of a milestone, if any were recorded and have not
    /// expired at `ledger`.
    pub fn get_milestone_approvals(&self, contract_id: u32, milestone_index: u32, ledger: Ledger) -> (r:
        Option<MilestoneApprovals>)
        requires
            self.wf(),
        ensures
            r == (if self@.has_contract(contract_id) && milestone_index < self@.rec(
                contract_id,
            ).approvals.len() {
                live_approvals(
                    self@.rec(contract_id).approvals[milestone_index as int],
                    ledger.sequence,
                )
            } else {
                None
            }),
    {
        let pos = match self.position(contract_id) {
            Some(p) => p,
            None => return None,
        };
        let i = milestone_index as usize;
        if i >= self.records[pos].approvals.len() {
            return None;
        }
        live_approvals_exec(self.records[pos].approvals[i], ledger.sequence)
    }

    /// Releases a milestone to the freelancer once its approvals are live and
    /// sufficient, retaining the protocol fee, and returns the payout the
    /// host must make (caller-authorized).
    pub fn release_milestone(
        &mut self,
        contract_id: u32,
        caller: Address,
        milestone_index: u32,
        ledger: Ledger,
    ) -> (r: Result<ReleaseReceipt, Error>)
        requires
            old(self).wf(),
        ensures
            final(self).wf(),
            failed_unchanged(
                r,
                release_error(old(self)@, contract_id, caller, milestone_index, ledger),
                old(self)@,
                final(self)@,
            ),
            r matches Ok(receipt) ==> {
                &&& receipt == release_receipt(old(self)@, contract_id, milestone_index as int)
                &&& final(self)@ == released_state(old(self)@, contract_id, milestone_index as int)
            },
    {
        self.pause_gate()?;
        let pos = match self.position(contract_id) {
            Some(p) => p,
            None => return Err(Error::ContractNotFound),
        };
        proof {
            assert(record_wf(self@.records[pos as int]));
        }
        if self.records[pos].finalization.is_some() {
            return Err(Error::AlreadyFinalized);
        }
        let c = self.records[pos].contract;
        match c.status {
            ContractStatus::Funded | ContractStatus::PartiallyFunded => {},
            _ => return Err(Error::InvalidState),
        }
        if !may_act_exec(&c, &caller) {
            return Err(Error::UnauthorizedRole);
        }
        let i = milestone_index as usize;
        if i >= self.records[pos].milestones.len() {
            return Err(Error::InvalidMilestone);
        }
        proof {
            assert(milestone_wf(self@.records[pos as int].milestones[i as int]));
        }
        if self.records[pos].milestones[i].released {
            return Err(Error::AlreadyReleased);
        }
        if self.records[pos].milestones[i].refunded {
            return Err(Error::AlreadyRefunded);
        }
        match live_approvals_exec(self.records[pos].approvals[i], ledger.sequence) {
            Some(a) => {
                let ok = match c.release_authorization {
                    ReleaseAuthorization::ClientOnly => a.client_approved,
                    ReleaseAuthorization::ArbiterOnly => a.arbiter_approved,
                    ReleaseAuthorization::ClientAndArbiter => a.client_approved
                        || a.arbiter_approved,
                    ReleaseAuthorization::MultiSig => a.client_approved && a.freelancer_approved,
                };
                if !ok {
                    return Err(Error::InsufficientApprovals);
                }
            },
            None => return Err(Error::InsufficientApprovals),
        }
        let amount = self.records[pos].milestones[i].amount;
        if self.records[pos].milestones[i].funded_amount < amount {
            return Err(Error::InsufficientFunds);
        }
        let available = c.funded_amount - c.released_amount - c.refunded_amount;
        if available < amount {
            return Err(Error::InsufficientFunds);
        }
        let token = match self.settlement_token {
            Some(t) => t,
            None => return Err(Error::SettlementTokenNotConfigured),
        };
        let fee: i128 = if self.initialized && self.protocol_fee_bps > 0 {
            match calculate_protocol_fee(amount, self.protocol_fee_bps) {
                Ok(f) => f,
                Err(e) => return Err(e),
            }
        } else {
            0
        };
        proof {
            lemma_fee_bounded(amount, self.protocol_fee_bps);
        }
        let new_fees = match self.accumulated_fees.checked_add(fee) {
            Some(f) => f,
            None => return Err(Error::PotentialOverflow),
        };
        let ghost old_view = self@;
        let ghost old_records = self.records@;
        let ghost r0 = self@.records[pos as int];
        let ghost expected_ms = released_milestones(r0.milestones, i as int);
        let completed = settled_after_release(&self.records[pos].milestones, i);
        let freelancer = c.freelancer;
        let credit = self.credit(&freelancer);
        if completed && credit == i128::MAX {
            return Err(Error::PotentialOverflow);
        }
        self.records[pos].milestones[i].released = true;
        self.records[pos].milestones[i].funded_amount = amount;
        self.records[pos].approvals[i] = None;
        self.records[pos].contract.released_amount = c.released_amount + amount;
        if completed {
            self.records[pos].contract.status = ContractStatus::Completed;
        }
        self.accumulated_fees = new_fees;
        proof {
            let expected = RecordView {
                contract: Contract {
                    released_amount: (c.released_amount + amount) as i128,
                    status: if completed {
                        ContractStatus::Completed
                    } else {
                        c.status
                    },
                    ..c
                },
                milestones: expected_ms,
                approvals: r0.approvals.update(i as int, None),
                ..r0
            };
            assert(self.records@[pos as int]@.milestones =~= expected.milestones);
            assert(self.records@[pos as int]@.approvals =~= expected.approvals);
            assert(self.records@[pos as int]@ == expected);
            assert forall|k: int| 0 <= k < self.records@.len() && k != pos implies records_view(
                self.records@,
            )[k] == old_view.records[k] by {
                assert(self.records@[k] == old_records[k]);
            }
            assert(self@.records =~= old_view.records.update(pos as int, expected));
            assert forall|k: int| 0 <= k < expected.milestones.len() implies milestone_wf(
                #[trigger] expected.milestones[k],
            ) by {
                assert(milestone_wf(r0.milestones[k]));
            }
            crate::state::lemma_total_amount_same(expected.milestones, r0.milestones);
            crate::state::lemma_total_funded_same(expected.milestones, r0.milestones);
            assert(record_wf(expected));
        }
        if completed {
            self.set_credit(freelancer, credit + 1);
        }
        Ok(
            ReleaseReceipt {
                payout: Transfer::FromEscrow { token, to: freelancer, amount: amount - fee },
                fee,
                completed,
            },
        )
    }
}

} // verus!
