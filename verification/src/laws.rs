//! Properties of the escrow as a whole, stated over the rules that the
//! operations' contracts use.
use vstd::prelude::*;

use crate::admin::{initialize_error, unpause_error};
use crate::create::{create_contract_error, created_state};
use crate::deposit::{
    after_deposit, deposit_error, deposited_record, lemma_allocations_sum,
    lemma_need_before_is_shortfall,
};
use crate::dispute::{available_balance, lemma_payouts_conserve_balance, payouts, DisputeResolution};
use crate::lifecycle::{
    cancel_error, raise_dispute_error, resolve_dispute_error, resolved_state, with_status,
};
use crate::migration::{accept_migration_error, propose_migration_error};
use crate::ttl::{expiry, PENDING_APPROVAL_TTL_LEDGERS, PENDING_MIGRATION_TTL_LEDGERS};
use crate::queries::{
    finalize_error, finalized_state, milestone_summaries, submit_evidence_error, summary_of,
};
use crate::refund::{
    has_duplicates, lemma_refund_total_nonneg, refund_error, refund_index_error, refund_total,
    refunded_milestones, refunded_state,
};
use crate::release::{
    approve_error, approved_record, live_approvals, release_error, release_receipt, released_state,
};
use crate::reputation::{issue_reputation_error, rated_state, reputation_of};
use crate::state::{
    credit_of, milestone_wf, pause_error, record_wf, released_count, total_amount, total_funded,
    total_refunded, EscrowView, RecordView,
};
use crate::types::{
    Address, Contract, Error, Ledger, MilestoneSummary, MilestoneView, PendingClientMigration,
    ReadinessChecklist, ReleaseAuthorization, Transfer,
};

verus! {

/// While the escrow is paused, every state-changing escrow operation is
/// refused with `ContractPaused`.
pub proof fn law_pause_blocks_mutations(v: EscrowView)
    requires
        v.paused,
    ensures
        forall|client: Address, freelancer: Address, arbiter: Option<Address>, amounts: Seq<i128>, mode: ReleaseAuthorization|
            #[trigger] create_contract_error(v, client, freelancer, arbiter, amounts, mode) == Some(
                Error::ContractPaused,
            ),
        forall|id: u32, caller: Address, amount: i128|
            #[trigger] deposit_error(v, id, caller, amount) == Some(Error::ContractPaused),
        forall|id: u32, caller: Address, i: u32, ledger: Ledger|
            #[trigger] approve_error(v, id, caller, i, ledger) == Some(Error::ContractPaused),
        forall|id: u32, caller: Address, i: u32, ledger: Ledger|
            #[trigger] release_error(v, id, caller, i, ledger) == Some(Error::ContractPaused),
        forall|id: u32, indices: Seq<u32>|
            #[trigger] refund_error(v, id, indices) == Some(Error::ContractPaused),
        forall|id: u32, caller: Address|
            #[trigger] cancel_error(v, id, caller) == Some(Error::ContractPaused),
        forall|id: u32, caller: Address, rating: u32, comment: Seq<u8>|
            #[trigger] issue_reputation_error(v, id, caller, rating, comment) == Some(
                Error::ContractPaused,
            ),
        forall|id: u32, caller: Address|
            #[trigger] raise_dispute_error(v, id, caller) == Some(Error::ContractPaused),
        forall|id: u32, arbiter: Address, resolution: DisputeResolution|
            #[trigger] resolve_dispute_error(v, id, arbiter, resolution) == Some(
                Error::ContractPaused,
            ),
        forall|id: u32, finalizer: Address|
            #[trigger] finalize_error(v, id, finalizer) == Some(Error::ContractPaused),
        forall|id: u32, caller: Address, i: u32, evidence: Seq<u8>|
            #[trigger] submit_evidence_error(v, id, caller, i, evidence) == Some(
                Error::ContractPaused,
            ),
        forall|id: u32, current: Address, proposed: Address|
            #[trigger] propose_migration_error(v, id, current, proposed) == Some(
                Error::ContractPaused,
            ),
        forall|id: u32, proposed: Address, ledger: Ledger|
            #[trigger] accept_migration_error(v, id, proposed, ledger) == Some(
                Error::ContractPaused,
            ),
{
}

/// While an emergency is active (and the pause flag alone was cleared),
/// every state-changing escrow operation is refused with `EmergencyActive`.
pub proof fn law_emergency_blocks_mutations(v: EscrowView)
    requires
        !v.paused,
        v.emergency,
    ensures
        forall|client: Address, freelancer: Address, arbiter: Option<Address>, amounts: Seq<i128>, mode: ReleaseAuthorization|
            #[trigger] create_contract_error(v, client, freelancer, arbiter, amounts, mode) == Some(
                Error::EmergencyActive,
            ),
        forall|id: u32, caller: Address, amount: i128|
            #[trigger] deposit_error(v, id, caller, amount) == Some(Error::EmergencyActive),
        forall|id: u32, caller: Address, i: u32, ledger: Ledger|
            #[trigger] approve_error(v, id, caller, i, ledger) == Some(Error::EmergencyActive),
        forall|id: u32, caller: Address, i: u32, ledger: Ledger|
            #[trigger] release_error(v, id, caller, i, ledger) == Some(Error::EmergencyActive),
        forall|id: u32, indices: Seq<u32>|
            #[trigger] refund_error(v, id, indices) == Some(Error::EmergencyActive),
        forall|id: u32, caller: Address|
            #[trigger] cancel_error(v, id, caller) == Some(Error::EmergencyActive),
        forall|id: u32, caller: Address, rating: u32, comment: Seq<u8>|
            #[trigger] issue_reputation_error(v, id, caller, rating, comment) == Some(
                Error::EmergencyActive,
            ),
        forall|id: u32, caller: Address|
            #[trigger] raise_dispute_error(v, id, caller) == Some(Error::EmergencyActive),
        forall|id: u32, arbiter: Address, resolution: DisputeResolution|
            #[trigger] resolve_dispute_error(v, id, arbiter, resolution) == Some(
                Error::EmergencyActive,
            ),
        forall|id: u32, finalizer: Address|
            #[trigger] finalize_error(v, id, finalizer) == Some(Error::EmergencyActive),
        forall|id: u32, caller: Address, i: u32, evidence: Seq<u8>|
            #[trigger] submit_evidence_error(v, id, caller, i, evidence) == Some(
                Error::EmergencyActive,
            ),
        forall|id: u32, current: Address, proposed: Address|
            #[trigger] propose_migration_error(v, id, current, proposed) == Some(
                Error::EmergencyActive,
            ),
        forall|id: u32, proposed: Address, ledger: Ledger|
            #[trigger] accept_migration_error(v, id, proposed, ledger) == Some(
                Error::EmergencyActive,
            ),
{
}

/// Once a contract is finalized, every operation that would change it fails;
/// those that look the contract up before anything else of it answer
/// `AlreadyFinalized`.
pub proof fn law_finalized_contract_refuses_mutations(v: EscrowView, id: u32)
    requires
        v.wf(),
        v.is_finalized(id),
        pause_error(v) is None,
    ensures
        forall|caller: Address, i: u32, ledger: Ledger|
            #[trigger] approve_error(v, id, caller, i, ledger) == Some(Error::AlreadyFinalized),
        forall|caller: Address, i: u32, ledger: Ledger|
            #[trigger] release_error(v, id, caller, i, ledger) == Some(Error::AlreadyFinalized),
        forall|caller: Address|
            #[trigger] raise_dispute_error(v, id, caller) == Some(Error::AlreadyFinalized),
        forall|arbiter: Address, resolution: DisputeResolution|
            #[trigger] resolve_dispute_error(v, id, arbiter, resolution) == Some(
                Error::AlreadyFinalized,
            ),
        forall|finalizer: Address|
            #[trigger] finalize_error(v, id, finalizer) == Some(Error::AlreadyFinalized),
        forall|caller: Address, i: u32, evidence: Seq<u8>|
            #[trigger] submit_evidence_error(v, id, caller, i, evidence) == Some(
                Error::AlreadyFinalized,
            ),
        forall|caller: Address, rating: u32, comment: Seq<u8>|
            #[trigger] issue_reputation_error(v, id, caller, rating, comment) == Some(
                Error::AlreadyFinalized,
            ),
        forall|current: Address, proposed: Address|
            #[trigger] propose_migration_error(v, id, current, proposed) == Some(
                Error::AlreadyFinalized,
            ),
        forall|proposed: Address, ledger: Ledger|
            #[trigger] accept_migration_error(v, id, proposed, ledger) == Some(
                Error::AlreadyFinalized,
            ),
        forall|caller: Address, amount: i128| #[trigger] deposit_error(v, id, caller, amount) is Some,
        forall|indices: Seq<u32>| #[trigger] refund_error(v, id, indices) is Some,
        forall|caller: Address| #[trigger] cancel_error(v, id, caller) is Some,
{
    assert(record_wf(v.records[id - 1]));
}

/// Reputation is issued at most once per contract: once it has been issued,
/// every further attempt on the same contract fails.
pub proof fn law_reputation_issued_at_most_once(
    v: EscrowView,
    id: u32,
    caller: Address,
    rating: u32,
    comment: Seq<u8>,
    caller2: Address,
    rating2: u32,
    comment2: Seq<u8>,
)
    requires
        issue_reputation_error(v, id, caller, rating, comment) is None,
    ensures
        issue_reputation_error(rated_state(v, id, rating, comment), id, caller2, rating2, comment2) is Some,
{
}

/// `initialize` succeeds only once.
pub proof fn law_initialize_only_once(v: EscrowView, admin: Address)
    requires
        initialize_error(v) is None,
    ensures
        initialize_error(
            EscrowView {
                initialized: true,
                admin: Some(admin),
                next_contract_id: 1,
                checklist: ReadinessChecklist { initialized: true, ..v.checklist },
                ..v
            },
        ) == Some(Error::AlreadyInitialized),
{
}

/// After the emergency pause is activated, `unpause` is refused until the
/// emergency is resolved; resolving it reopens every operation.
pub proof fn law_emergency_needs_resolution(v: EscrowView)
    requires
        v.initialized,
    ensures
        unpause_error(
            EscrowView {
                emergency: true,
                paused: true,
                checklist: ReadinessChecklist { emergency_controls_enabled: true, ..v.checklist },
                ..v
            },
        ) == Some(Error::EmergencyActive),
        pause_error(
            EscrowView {
                emergency: false,
                paused: false,
                checklist: ReadinessChecklist { emergency_controls_enabled: true, ..v.checklist },
                ..v
            },
        ) is None,
{
}

/// Contract ids are allocated in sequence: a created contract gets the next
/// id, which then exists, and the following contract gets the id after it.
pub proof fn law_contract_ids_are_sequential(
    v: EscrowView,
    client: Address,
    freelancer: Address,
    arbiter: Option<Address>,
    amounts: Seq<i128>,
    mode: ReleaseAuthorization,
)
    requires
        v.wf(),
        create_contract_error(v, client, freelancer, arbiter, amounts, mode) is None,
    ensures
        ({
            let v2 = created_state(v, client, freelancer, arbiter, amounts, mode);
            &&& v2.has_contract(v.next_contract_id)
            &&& v2.next_contract_id == v.next_contract_id + 1
            &&& !v.has_contract(v.next_contract_id)
        }),
{
}

/// A release pays the freelancer the milestone amount less the protocol
/// fee, and the fee never exceeds the amount.
pub proof fn law_release_splits_amount_into_payout_and_fee(
    v: EscrowView,
    id: u32,
    caller: Address,
    i: u32,
    ledger: Ledger,
)
    requires
        v.wf(),
        release_error(v, id, caller, i, ledger) is None,
    ensures
        ({
            let receipt = release_receipt(v, id, i as int);
            let amount = v.rec(id).milestones[i as int].amount;
            &&& 0 <= receipt.fee <= amount
            &&& receipt.payout matches Transfer::FromEscrow { amount: payout, .. } && payout
                + receipt.fee == amount
        }),
{
    assert(record_wf(v.records[id - 1]));
    assert(milestone_wf(v.rec(id).milestones[i as int]));
    crate::amounts::lemma_fee_bounded(v.rec(id).milestones[i as int].amount, v.protocol_fee_bps);
}

/// A resolved dispute settles the contract completely: everything funded
/// has been released or refunded, and the contract ends `Completed` or
/// `Refunded`.
pub proof fn law_resolution_settles_contract(
    v: EscrowView,
    id: u32,
    arbiter: Address,
    resolution: DisputeResolution,
)
    requires
        resolve_dispute_error(v, id, arbiter, resolution) is None,
    ensures
        ({
            let c = resolved_state(v, id, resolution).rec(id).contract;
            &&& c.released_amount + c.refunded_amount == c.funded_amount
            &&& (c.status is Completed || c.status is Refunded)
        }),
{
}

/// Deposits fill the milestones in order: the per-milestone funded amounts
/// grow, together, by the deposit or by what the milestones still lacked,
/// whichever is less. So as long as deposits do not exceed what the
/// milestones lack, the per-milestone funded amounts add up to the
/// contract's funded amount after a deposit whenever they did before.
pub proof fn law_deposit_fills_milestones_in_order(r: RecordView, amount: i128)
    requires
        record_wf(r),
        amount > 0,
    ensures
        ({
            let shortfall = total_amount(r.milestones) - total_funded(r.milestones);
            total_funded(after_deposit(r.milestones, amount as int)) == total_funded(r.milestones)
                + if amount < shortfall {
                amount as int
            } else {
                shortfall
            }
        }),
        total_funded(r.milestones) == r.contract.funded_amount && amount <= total_amount(
            r.milestones,
        ) - total_funded(r.milestones) ==> total_funded(deposited_record(r, amount).milestones)
            == deposited_record(r, amount).contract.funded_amount,
{
    let ms = r.milestones;
    let n = ms.len() as int;
    lemma_allocations_sum(ms, amount as int, n);
    lemma_need_before_is_shortfall(ms, n);
    assert(ms.take(n) =~= ms);
    assert(after_deposit(ms, amount as int).take(n) =~= after_deposit(ms, amount as int));
}

/// The indices of a refund request without an index error are in range and
/// name milestones that are neither released nor refunded.
proof fn lemma_refund_indices_usable(ms: Seq<MilestoneView>, s: Seq<u32>)
    requires
        refund_index_error(ms, s) is None,
    ensures
        forall|p: int|
            0 <= p < s.len() ==> {
                &&& (#[trigger] s[p]) < ms.len()
                &&& !ms[s[p] as int].released
                &&& !ms[s[p] as int].refunded
            },
    decreases s.len(),
{
    if s.len() > 0 {
        lemma_refund_indices_usable(ms, s.drop_first());
        assert forall|p: int| 0 <= p < s.len() implies {
            &&& (#[trigger] s[p]) < ms.len()
            &&& !ms[s[p] as int].released
            &&& !ms[s[p] as int].refunded
        } by {
            if p > 0 {
                assert(s[p] == s.drop_first()[p - 1]);
            }
        }
    }
}

/// Replacing one milestone changes the refunded total by the difference of
/// the two refunded amounts.
proof fn lemma_total_refunded_update(ms: Seq<MilestoneView>, i: int, m: MilestoneView)
    requires
        0 <= i < ms.len(),
    ensures
        total_refunded(ms.update(i, m)) == total_refunded(ms) - ms[i].refunded_amount
            + m.refunded_amount,
    decreases ms.len(),
{
    let u = ms.update(i, m);
    if i == ms.len() - 1 {
        assert(u.drop_last() =~= ms.drop_last());
    } else {
        lemma_total_refunded_update(ms.drop_last(), i, m);
        assert(u.drop_last() =~= ms.drop_last().update(i, m));
    }
}

/// Refunding distinct, usable milestones that hold no refunded amount yet
/// raises the refunded total by what the refund pays.
proof fn lemma_refunded_total_grows_by_refund(ms: Seq<MilestoneView>, s: Seq<u32>)
    requires
        ms.len() <= u32::MAX,
        !has_duplicates(s),
        forall|p: int|
            0 <= p < s.len() ==> (#[trigger] s[p]) < ms.len() && ms[s[p] as int].refunded_amount
                == 0,
    ensures
        total_refunded(refunded_milestones(ms, s)) == total_refunded(ms) + refund_total(ms, s),
    decreases s.len(),
{
    if s.len() == 0 {
        assert(refunded_milestones(ms, s) =~= ms);
    } else {
        let t = s.drop_last();
        let x = s.last();
        assert(x == s[s.len() - 1]);
        assert(!has_duplicates(t)) by {
            if has_duplicates(t) {
                let (i, j) = choose|i: int, j: int|
                    0 <= i < j < t.len() && #[trigger] t[i] == #[trigger] t[j];
                assert(s[i] == s[j]);
            }
        }
        assert forall|p: int| 0 <= p < t.len() implies (#[trigger] t[p]) < ms.len()
            && ms[t[p] as int].refunded_amount == 0 by {
            assert(t[p] == s[p]);
        }
        lemma_refunded_total_grows_by_refund(ms, t);
        assert(!t.contains(x)) by {
            if t.contains(x) {
                let k = choose|k: int| 0 <= k < t.len() && t[k] == x;
                assert(s[k] == s[s.len() - 1]);
            }
        }
        let before = refunded_milestones(ms, t);
        let m = MilestoneView { refunded: true, refunded_amount: ms[x as int].amount, ..ms[x as int] };
        assert forall|j: int| 0 <= j < ms.len() implies #[trigger] s.contains(j as u32) == (
        t.contains(j as u32) || j as u32 == x) by {
            if s.contains(j as u32) {
                let k = choose|k: int| 0 <= k < s.len() && s[k] == j as u32;
                if k < s.len() - 1 {
                    assert(t[k] == j as u32);
                }
            }
            if t.contains(j as u32) {
                let k = choose|k: int| 0 <= k < t.len() && t[k] == j as u32;
                assert(s[k] == j as u32);
            }
        }
        assert forall|j: int| 0 <= j < ms.len() implies #[trigger] refunded_milestones(ms, s)[j]
            == before.update(x as int, m)[j] by {
            assert(s.contains(j as u32) == (t.contains(j as u32) || j as u32 == x));
            if j == x as int {
                assert(s.contains(j as u32));
            } else {
                assert(j as u32 != x);
            }
        }
        assert(refunded_milestones(ms, s) =~= before.update(x as int, m));
        lemma_total_refunded_update(before, x as int, m);
    }
}

/// A refund keeps the per-milestone refunded amounts in step with the
/// contract's refunded amount: if they added up to it before, and
/// milestones not yet refunded held no refunded amount, both still hold
/// after the refund.
pub proof fn law_refund_keeps_refunded_amounts_in_step(v: EscrowView, id: u32, s: Seq<u32>)
    requires
        v.wf(),
        refund_error(v, id, s) is None,
        total_refunded(v.rec(id).milestones) == v.rec(id).contract.refunded_amount,
        forall|j: int|
            0 <= j < v.rec(id).milestones.len() && !(#[trigger] v.rec(id).milestones[j]).refunded
                ==> v.rec(id).milestones[j].refunded_amount == 0,
    ensures
        ({
            let r = refunded_state(v, id, s).rec(id);
            &&& total_refunded(r.milestones) == r.contract.refunded_amount
            &&& forall|j: int|
                0 <= j < r.milestones.len() && !(#[trigger] r.milestones[j]).refunded
                    ==> r.milestones[j].refunded_amount == 0
        }),
{
    let ms = v.rec(id).milestones;
    assert(record_wf(v.records[id - 1]));
    lemma_refund_indices_usable(ms, s);
    assert forall|p: int| 0 <= p < s.len() implies (#[trigger] s[p]) < ms.len()
        && ms[s[p] as int].refunded_amount == 0 by {
        assert(!ms[s[p] as int].refunded);
    }
    lemma_refunded_total_grows_by_refund(ms, s);
    lemma_refund_total_nonneg(ms, s);
    let ms2 = refunded_milestones(ms, s);
    assert forall|j: int| 0 <= j < ms2.len() && !(#[trigger] ms2[j]).refunded implies ms2[j].refunded_amount == 0 by {
        assert(!ms[j].refunded);
    }
}

/// Milestones with the same refunded amounts have the same refunded total.
proof fn lemma_total_refunded_same(a: Seq<MilestoneView>, b: Seq<MilestoneView>)
    requires
        a.len() == b.len(),
        forall|j: int| 0 <= j < a.len() ==> (#[trigger] a[j]).refunded_amount == b[j].refunded_amount,
    ensures
        total_refunded(a) == total_refunded(b),
    decreases a.len(),
{
    if a.len() > 0 {
        lemma_total_refunded_same(a.drop_last(), b.drop_last());
        assert(a.last() == a[a.len() - 1]);
        assert(b.last() == b[b.len() - 1]);
    }
}

/// Deposits and releases leave the refunded side of a contract alone: the
/// contract's refunded amount, and every milestone's refunded flag and
/// amount, are what they were, so they stay in step with each other.
pub proof fn law_deposit_and_release_leave_refunds_alone(
    v: EscrowView,
    id: u32,
    amount: i128,
    i: u32,
)
    requires
        v.wf(),
        v.has_contract(id),
        i < v.rec(id).milestones.len(),
    ensures
        ({
            let r = v.rec(id);
            let d = deposited_record(r, amount);
            let rel = released_state(v, id, i as int).rec(id);
            &&& d.contract.refunded_amount == r.contract.refunded_amount
            &&& rel.contract.refunded_amount == r.contract.refunded_amount
            &&& total_refunded(d.milestones) == total_refunded(r.milestones)
            &&& total_refunded(rel.milestones) == total_refunded(r.milestones)
            &&& forall|j: int|
                0 <= j < r.milestones.len() ==> {
                    &&& (#[trigger] d.milestones[j]).refunded == r.milestones[j].refunded
                    &&& d.milestones[j].refunded_amount == r.milestones[j].refunded_amount
                    &&& rel.milestones[j].refunded == r.milestones[j].refunded
                    &&& rel.milestones[j].refunded_amount == r.milestones[j].refunded_amount
                }
        }),
{
    let r = v.rec(id);
    let d = deposited_record(r, amount);
    let rel = released_state(v, id, i as int).rec(id);
    lemma_total_refunded_same(d.milestones, r.milestones);
    lemma_total_refunded_same(rel.milestones, r.milestones);
}

/// A client migration that was proposed can be accepted by the proposed
/// address at any ledger up to its expiry, and acceptance makes that address
/// the client; from the ledger after the expiry on it is refused with
/// `InvalidState`.
pub proof fn law_migration_accepted_until_expiry(
    v: EscrowView,
    id: u32,
    current_client: Address,
    new_client: Address,
    proposed_at: Ledger,
    later: Ledger,
)
    requires
        propose_migration_error(v, id, current_client, new_client) is None,
    ensures
        ({
            let expires = expiry(proposed_at.sequence, PENDING_MIGRATION_TTL_LEDGERS);
            let v2 = v.with_rec(
                id,
                RecordView {
                    migration: Some(
                        PendingClientMigration {
                            current_client,
                            proposed_client: new_client,
                            expires_at_ledger: expires,
                        },
                    ),
                    ..v.rec(id)
                },
            );
            let v3 = v2.with_rec(
                id,
                RecordView {
                    contract: Contract { client: new_client, ..v2.rec(id).contract },
                    migration: None,
                    ..v2.rec(id)
                },
            );
            &&& later.sequence <= expires ==> accept_migration_error(v2, id, new_client, later) is None
            &&& later.sequence > expires ==> accept_migration_error(v2, id, new_client, later)
                == Some(Error::InvalidState)
            &&& v3.rec(id).contract.client == new_client
        }),
{
}

/// An approval recorded at some ledger counts from then on up to its expiry,
/// `PENDING_APPROVAL_TTL_LEDGERS` later, and no longer after it; it carries
/// the approver's flag.
pub proof fn law_approval_lives_until_expiry(
    r: RecordView,
    i: int,
    caller: Address,
    approved_at: Ledger,
    later: Ledger,
)
    requires
        0 <= i < r.approvals.len(),
    ensures
        ({
            let expires = expiry(approved_at.sequence, PENDING_APPROVAL_TTL_LEDGERS);
            let slot = approved_record(r, i, caller, approved_at).approvals[i];
            &&& (live_approvals(slot, later.sequence) is Some <==> later.sequence <= expires)
            &&& caller == r.contract.client ==> slot->Some_0.approvals.client_approved
            &&& caller != r.contract.client && caller == r.contract.freelancer
                ==> slot->Some_0.approvals.freelancer_approved
            &&& caller != r.contract.client && caller != r.contract.freelancer
                ==> slot->Some_0.approvals.arbiter_approved
        }),
{
}

/// The number of summary lines that report a released milestone.
pub open spec fn released_lines(lines: Seq<MilestoneSummary>) -> nat
    decreases lines.len(),
{
    if lines.len() == 0 {
        0
    } else {
        released_lines(lines.drop_last()) + if lines.last().released {
            1nat
        } else {
            0nat
        }
    }
}

proof fn lemma_released_lines_match(ms: Seq<MilestoneView>)
    ensures
        released_lines(milestone_summaries(ms)) == released_count(ms),
    decreases ms.len(),
{
    if ms.len() > 0 {
        lemma_released_lines_match(ms.drop_last());
        assert(milestone_summaries(ms).drop_last() =~= milestone_summaries(ms.drop_last()));
    }
}

/// A contract summary's released-milestone count is the number of its
/// milestone lines flagged released; refunded milestones never count.
pub proof fn law_summary_count_matches_released_lines(r: RecordView, reputation_issued: bool)
    requires
        record_wf(r),
    ensures
        summary_of(r, reputation_issued).released_milestone_count == released_lines(
            summary_of(r, reputation_issued).milestones,
        ),
        summary_of(r, reputation_issued).milestones.len() == r.milestones.len(),
{
    lemma_released_lines_match(r.milestones);
    crate::state::lemma_released_count_le(r.milestones);
}

/// The assigned arbiter's resolution of a dispute, when its payouts are
/// defined, is accepted and settles the contract: the client's payout is
/// added to the refunded amount and the freelancer's to the released amount,
/// which then add up to the funded amount; the contract ends `Refunded`
/// exactly when everything funded went back to the client and `Completed`
/// otherwise, and the freelancer gains one pending reputation credit exactly
/// when it ends `Completed`.
pub proof fn law_resolution_pays_out_and_settles(
    v: EscrowView,
    id: u32,
    arbiter: Address,
    resolution: DisputeResolution,
)
    requires
        v.wf(),
        pause_error(v) is None,
        v.has_contract(id),
        v.rec(id).finalization is None,
        v.rec(id).contract.status is Disputed,
        v.rec(id).contract.arbiter == Some(arbiter),
        payouts(v.rec(id).contract, resolution) is Ok,
        credit_of(v, v.rec(id).contract.freelancer) < i128::MAX,
    ensures
        resolve_dispute_error(v, id, arbiter, resolution) is None,
        ({
            let c = v.rec(id).contract;
            let (client, freelancer) = payouts(c, resolution)->Ok_0;
            let v2 = resolved_state(v, id, resolution);
            let c2 = v2.rec(id).contract;
            &&& c2.refunded_amount == c.refunded_amount + client
            &&& c2.released_amount == c.released_amount + freelancer
            &&& c2.funded_amount == c.funded_amount
            &&& c2.released_amount + c2.refunded_amount == c2.funded_amount
            &&& (c2.status is Refunded <==> c2.refunded_amount == c2.funded_amount)
            &&& (c2.status is Completed <==> !(c2.status is Refunded))
            &&& credit_of(v2, c.freelancer) == credit_of(v, c.freelancer) + if c2.status is Completed {
                1int
            } else {
                0int
            }
        }),
{
    let c = v.rec(id).contract;
    assert(record_wf(v.records[id - 1]));
    lemma_payouts_conserve_balance(c, resolution);
}

/// Whether a refund request may not name the milestone at `x`: out of range,
/// released, or already refunded.
pub open spec fn unusable_index(ms: Seq<MilestoneView>, x: u32) -> bool {
    x >= ms.len() || ms[x as int].released || ms[x as int].refunded
}

proof fn lemma_refund_index_error_kinds(ms: Seq<MilestoneView>, s: Seq<u32>)
    ensures
        refund_index_error(ms, s) matches Some(e) ==> (e == Error::IndexOutOfBounds || e
            == Error::AlreadyReleased || e == Error::AlreadyRefunded),
        (exists|p: int| 0 <= p < s.len() && unusable_index(ms, #[trigger] s[p])) ==> refund_index_error(
            ms,
            s,
        ) is Some,
        (forall|p: int| 0 <= p < s.len() ==> !unusable_index(ms, #[trigger] s[p]))
            ==> refund_index_error(ms, s) is None,
    decreases s.len(),
{
    if s.len() > 0 {
        lemma_refund_index_error_kinds(ms, s.drop_first());
        if exists|p: int| 0 <= p < s.len() && unusable_index(ms, #[trigger] s[p]) {
            let p = choose|p: int| 0 <= p < s.len() && unusable_index(ms, #[trigger] s[p]);
            if p > 0 {
                assert(s.drop_first()[p - 1] == s[p]);
            }
        }
        if forall|p: int| 0 <= p < s.len() ==> !unusable_index(ms, #[trigger] s[p]) {
            assert(!unusable_index(ms, s[0]));
            assert forall|p: int| 0 <= p < s.drop_first().len() implies !unusable_index(
                ms,
                #[trigger] s.drop_first()[p],
            ) by {
                assert(s.drop_first()[p] == s[p + 1]);
            }
        }
    }
}

/// Refunding the same milestones from copies that differ only in refunded
/// amounts pays the same.
proof fn lemma_refund_total_same_amounts(a: Seq<MilestoneView>, b: Seq<MilestoneView>, s: Seq<u32>)
    requires
        a.len() == b.len(),
        forall|k: int| 0 <= k < a.len() ==> (#[trigger] a[k]).amount == b[k].amount,
        forall|p: int| 0 <= p < s.len() ==> (#[trigger] s[p]) < a.len(),
    ensures
        refund_total(a, s) == refund_total(b, s),
    decreases s.len(),
{
    if s.len() > 0 {
        lemma_refund_total_same_amounts(a, b, s.drop_last());
        assert(s.last() == s[s.len() - 1]);
    }
}

proof fn lemma_total_refunded_zero(ms: Seq<MilestoneView>)
    requires
        forall|k: int| 0 <= k < ms.len() ==> (#[trigger] ms[k]).refunded_amount == 0,
    ensures
        total_refunded(ms) == 0,
    decreases ms.len(),
{
    if ms.len() > 0 {
        lemma_total_refunded_zero(ms.drop_last());
    }
}

proof fn lemma_total_refunded_le_amount(ms: Seq<MilestoneView>)
    requires
        forall|k: int| 0 <= k < ms.len() ==> (#[trigger] ms[k]).refunded_amount <= ms[k].amount,
    ensures
        total_refunded(ms) <= total_amount(ms),
    decreases ms.len(),
{
    if ms.len() > 0 {
        lemma_total_refunded_le_amount(ms.drop_last());
    }
}

/// What a refund of distinct, in-range milestones pays is at most the total
/// of all milestone amounts.
proof fn lemma_refund_total_le_total(ms: Seq<MilestoneView>, s: Seq<u32>)
    requires
        ms.len() <= u32::MAX,
        !has_duplicates(s),
        forall|p: int| 0 <= p < s.len() ==> (#[trigger] s[p]) < ms.len(),
        forall|k: int| 0 <= k < ms.len() ==> (#[trigger] ms[k]).amount > 0,
    ensures
        refund_total(ms, s) <= total_amount(ms),
{
    let ms0 = Seq::new(ms.len(), |j: int| MilestoneView { refunded_amount: 0, ..ms[j] });
    lemma_refund_total_same_amounts(ms0, ms, s);
    lemma_total_refunded_zero(ms0);
    assert forall|p: int| 0 <= p < s.len() implies (#[trigger] s[p]) < ms0.len()
        && ms0[s[p] as int].refunded_amount == 0 by {}
    lemma_refunded_total_grows_by_refund(ms0, s);
    let rm = refunded_milestones(ms0, s);
    assert forall|k: int| 0 <= k < rm.len() implies (#[trigger] rm[k]).refunded_amount
        <= rm[k].amount by {}
    lemma_total_refunded_le_amount(rm);
    crate::state::lemma_total_amount_same(rm, ms);
}

/// A refund request that names a milestone that is out of range, already
/// released or already refunded is refused with one of those three errors
/// (the first such index decides which); one that names only usable
/// milestones whose amounts together exceed the balance still held is
/// refused with `InsufficientFunds`. A refused refund changes nothing (the
/// `ensures` of `refund_unreleased_milestones`).
pub proof fn law_refund_refuses_faulty_requests(v: EscrowView, id: u32, s: Seq<u32>)
    requires
        v.wf(),
        pause_error(v) is None,
        s.len() > 0,
        !has_duplicates(s),
        v.has_contract(id),
        v.rec(id).finalization is None,
        v.rec(id).contract.status is Created || v.rec(id).contract.status is Funded
            || v.rec(id).contract.status is Disputed,
    ensures
        (exists|p: int| 0 <= p < s.len() && unusable_index(v.rec(id).milestones, #[trigger] s[p]))
            ==> (refund_error(v, id, s) matches Some(e) && (e == Error::IndexOutOfBounds || e
            == Error::AlreadyReleased || e == Error::AlreadyRefunded)),
        (forall|p: int| 0 <= p < s.len() ==> !unusable_index(v.rec(id).milestones, #[trigger] s[p]))
            && refund_total(v.rec(id).milestones, s) > available_balance(v.rec(id).contract)
            ==> refund_error(v, id, s) == Some(Error::InsufficientFunds),
{
    let ms = v.rec(id).milestones;
    assert(record_wf(v.records[id - 1]));
    lemma_refund_index_error_kinds(ms, s);
    if forall|p: int| 0 <= p < s.len() ==> !unusable_index(ms, #[trigger] s[p]) {
        assert forall|k: int| 0 <= k < ms.len() implies (#[trigger] ms[k]).amount > 0 by {
            assert(milestone_wf(ms[k]));
        }
        assert forall|p: int| 0 <= p < s.len() implies (#[trigger] s[p]) < ms.len() by {
            assert(!unusable_index(ms, s[p]));
        }
        lemma_refund_total_le_total(ms, s);
    }
}

/// Either party of a contract that is still open (created, partly or fully
/// funded) may cancel it while the escrow is not paused and the contract is
/// not finalized; the client and the freelancer alike. Exactly then the
/// cancellation is accepted, and it leaves the contract `Cancelled`.
pub proof fn law_either_party_cancels_an_open_contract(v: EscrowView, id: u32, caller: Address)
    requires
        v.wf(),
    ensures
        cancel_error(v, id, caller) is None <==> {
            &&& !v.paused
            &&& !v.emergency
            &&& 1 <= id <= v.records.len()
            &&& caller == v.records[id - 1].contract.client || caller
                == v.records[id - 1].contract.freelancer
            &&& (v.records[id - 1].contract.status is Created
                || v.records[id - 1].contract.status is PartiallyFunded
                || v.records[id - 1].contract.status is Funded)
            &&& v.records[id - 1].finalization is None
        },
        cancel_error(v, id, caller) is None ==> with_status(
            v,
            id,
            crate::types::ContractStatus::Cancelled,
        ).records[id - 1].contract.status is Cancelled,
{
}

/// Either party may raise a dispute on a contract that has an arbiter and
/// holds deposits it has not paid out (partly or fully funded), while the
/// escrow is not paused and the contract is not finalized. Exactly then the
/// dispute is accepted, and it leaves the contract `Disputed`.
pub proof fn law_either_party_disputes_a_funded_contract(v: EscrowView, id: u32, caller: Address)
    requires
        v.wf(),
    ensures
        raise_dispute_error(v, id, caller) is None <==> {
            &&& !v.paused
            &&& !v.emergency
            &&& 1 <= id <= v.records.len()
            &&& v.records[id - 1].finalization is None
            &&& caller == v.records[id - 1].contract.client || caller
                == v.records[id - 1].contract.freelancer
            &&& v.records[id - 1].contract.arbiter is Some
            &&& (v.records[id - 1].contract.status is PartiallyFunded
                || v.records[id - 1].contract.status is Funded)
        },
        raise_dispute_error(v, id, caller) is None ==> with_status(
            v,
            id,
            crate::types::ContractStatus::Disputed,
        ).records[id - 1].contract.status is Disputed,
{
}

/// The sum of the amounts on a list of summary lines.
pub open spec fn line_total(lines: Seq<MilestoneSummary>) -> int
    decreases lines.len(),
{
    if lines.len() == 0 {
        0
    } else {
        line_total(lines.drop_last()) + lines.last().amount
    }
}

proof fn lemma_line_total_matches(ms: Seq<MilestoneView>)
    ensures
        line_total(milestone_summaries(ms)) == total_amount(ms),
    decreases ms.len(),
{
    if ms.len() > 0 {
        lemma_line_total_matches(ms.drop_last());
        assert(milestone_summaries(ms).drop_last() =~= milestone_summaries(ms.drop_last()));
    }
}

/// A contract summary reports as its total the sum of the amounts of the
/// contract's milestones, one line per milestone with that milestone's
/// amount, whatever has been funded, released or refunded so far; its
/// funded and released amounts are the contract's, and its refundable
/// balance is what was funded and neither released nor refunded. The
/// summary frozen at finalization reports the same total.
pub proof fn law_summary_totals_the_milestone_amounts(
    v: EscrowView,
    id: u32,
    reputation_issued: bool,
    finalizer: Address,
    ledger: Ledger,
)
    requires
        v.wf(),
        1 <= id <= v.records.len(),
    ensures
        ({
            let r = v.records[id - 1];
            let s = summary_of(r, reputation_issued);
            &&& s.total_amount == total_amount(r.milestones)
            &&& s.milestones.len() == r.milestones.len()
            &&& forall|k: int| 0 <= k < r.milestones.len() ==> #[trigger] s.milestones[k].amount
                == r.milestones[k].amount
            &&& s.total_amount == line_total(s.milestones)
            &&& s.funded_amount == r.contract.funded_amount
            &&& s.released_amount == r.contract.released_amount
            &&& s.refundable_balance == r.contract.funded_amount - r.contract.released_amount
                - r.contract.refunded_amount
        }),
        finalized_state(v, id, finalizer, ledger).records[id - 1].finalization matches Some(f)
            && f.summary.total_amount == total_amount(v.records[id - 1].milestones),
{
    let r = v.records[id - 1];
    assert(record_wf(r));
    crate::state::lemma_total_amount_nonneg(r.milestones);
    lemma_line_total_matches(r.milestones);
}

/// A rating issued by the client of a completed contract is added to the
/// freelancer's reputation: one more completed contract, the rating added
/// to the total, and the rating recorded as the last one, whatever was
/// recorded before.
pub proof fn law_rating_updates_reputation(
    v: EscrowView,
    id: u32,
    caller: Address,
    rating: u32,
    comment: Seq<u8>,
)
    requires
        v.wf(),
        issue_reputation_error(v, id, caller, rating, comment) is None,
    ensures
        ({
            let f = v.records[id - 1].contract.freelancer;
            let before = reputation_of(v, f);
            let after = reputation_of(rated_state(v, id, rating, comment), f);
            &&& caller == v.records[id - 1].contract.client
            &&& 1 <= rating <= 5
            &&& after.last_rating == rating
            &&& after.completed_contracts == before.completed_contracts + 1
            &&& after.total_rating == before.total_rating + rating
        }),
{
}

} // verus!
