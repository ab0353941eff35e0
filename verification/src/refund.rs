//! Refunding unreleased milestones to the client.
use vstd::prelude::*;

use crate::dispute::available_balance;
use crate::state::{
    accounting_sound, all_refunded, all_settled, credit_of, total_amount, failed_unchanged, milestone_wf, milestones_view,
    pause_error, record_wf, records_view, Escrow, EscrowView, RecordView,
};
use crate::types::{Contract, ContractStatus, Error, Milestone, MilestoneView, Transfer};

verus! {

/// What a successful refund hands back: the total refunded and the payout
/// the host must make to the client.
#[derive(Clone, Copy, Debug, PartialEq, Eq, Structural)]
pub struct RefundReceipt {
    pub refunded: i128,
    pub payout: Transfer,
}

/// Whether some index occurs twice in `s`.
pub open spec fn has_duplicates(s: Seq<u32>) -> bool {
    exists|i: int, j: int| 0 <= i < j < s.len() && #[trigger] s[i] == #[trigger] s[j]
}

/// The error the first unusable index of `s` causes, if any: out of range,
/// already released, or already refunded.
pub open spec fn refund_index_error(ms: Seq<MilestoneView>, s: Seq<u32>) -> Option<Error>
    decreases s.len(),
{
    if s.len() == 0 {
        None
    } else if s[0] >= ms.len() {
        Some(Error::IndexOutOfBounds)
    } else if ms[s[0] as int].released {
        Some(Error::AlreadyReleased)
    } else if ms[s[0] as int].refunded {
        Some(Error::AlreadyRefunded)
    } else {
        refund_index_error(ms, s.drop_first())
    }
}

/// The sum of the amounts of the milestones that `s` names.
pub open spec fn refund_total(ms: Seq<MilestoneView>, s: Seq<u32>) -> int
    decreases s.len(),
{
    if s.len() == 0 {
        0
    } else {
        refund_total(ms, s.drop_last()) + ms[s.last() as int].amount
    }
}

/// The milestones with those that `s` names marked refunded.
pub open spec fn refunded_milestones(ms: Seq<MilestoneView>, s: Seq<u32>) -> Seq<MilestoneView> {
    Seq::new(
        ms.len(),
        |j: int|
            if s.contains(j as u32) {
                MilestoneView { refunded: true, refunded_amount: ms[j].amount, ..ms[j] }
            } else {
                ms[j]
            },
    )
}

/// The status after a refund: `Refunded` when every milestone ends refunded,
/// `Completed` when all are settled but some were released, unchanged
/// otherwise.
pub open spec fn status_after_refund(status: ContractStatus, ms: Seq<MilestoneView>) -> ContractStatus {
    if all_settled(ms) {
        if all_refunded(ms) {
            ContractStatus::Refunded
        } else {
            ContractStatus::Completed
        }
    } else {
        status
    }
}

/// The first check that `refund_unreleased_milestones` fails, if any.
pub open spec fn refund_error(v: EscrowView, contract_id: u32, indices: Seq<u32>) -> Option<Error> {
    let r = v.rec(contract_id);
    let c = r.contract;
    let ms2 = refunded_milestones(r.milestones, indices);
    if pause_error(v) is Some {
        pause_error(v)
    } else if indices.len() == 0 {
        Some(Error::EmptyRefundRequest)
    } else if has_duplicates(indices) {
        Some(Error::DuplicateMilestoneInRefund)
    } else if !v.has_contract(contract_id) {
        Some(Error::ContractNotFound)
    } else if r.finalization is Some {
        Some(Error::AlreadyFinalized)
    } else if !(c.status is Created || c.status is Funded || c.status is Disputed) {
        Some(Error::InvalidState)
    } else if refund_index_error(r.milestones, indices) is Some {
        refund_index_error(r.milestones, indices)
    } else if refund_total(r.milestones, indices) > i128::MAX {
        Some(Error::PotentialOverflow)
    } else if available_balance(c) < refund_total(r.milestones, indices) {
        Some(Error::InsufficientFunds)
    } else if v.settlement_token is None {
        Some(Error::SettlementTokenNotConfigured)
    } else if status_after_refund(c.status, ms2) is Completed && credit_of(v, c.freelancer) + 1
        > i128::MAX {
        Some(Error::PotentialOverflow)
    } else {
        None
    }
}

/// The state after the milestones `indices` of contract `contract_id` are
/// refunded.
pub open spec fn refunded_state(v: EscrowView, contract_id: u32, indices: Seq<u32>) -> EscrowView {
    let r = v.rec(contract_id);
    let c = r.contract;
    let ms2 = refunded_milestones(r.milestones, indices);
    let status = status_after_refund(c.status, ms2);
    let v2 = v.with_rec(
        contract_id,
        RecordView {
            contract: Contract {
                refunded_amount: (c.refunded_amount + refund_total(r.milestones, indices)) as i128,
                status,
                ..c
            },
            milestones: ms2,
            ..r
        },
    );
    EscrowView {
        credits: if status is Completed {
            v.credits.insert(c.freelancer, (credit_of(v, c.freelancer) + 1) as i128)
        } else {
            v.credits
        },
        ..v2
    }
}

/// Refund totals of prefixes grow with the prefix.
proof fn lemma_refund_total_prefix_le(ms: Seq<MilestoneView>, s: Seq<u32>, i: int)
    requires
        0 <= i <= s.len(),
        forall|p: int| 0 <= p < s.len() ==> (#[trigger] s[p]) < ms.len(),
        forall|j: int| 0 <= j < ms.len() ==> (#[trigger] ms[j]).amount > 0,
    ensures
        0 <= refund_total(ms, s.take(i)) <= refund_total(ms, s),
    decreases s.len() - i,
{
    if i < s.len() {
        lemma_refund_total_prefix_le(ms, s, i + 1);
        assert(s.take(i + 1).drop_last() =~= s.take(i));
        assert(s.take(i + 1).last() == s[i]);
        lemma_refund_total_nonneg(ms, s.take(i));
    } else {
        assert(s.take(i) =~= s);
        lemma_refund_total_nonneg(ms, s);
    }
}

/// What a refund pays is never negative.
pub proof fn lemma_refund_total_nonneg(ms: Seq<MilestoneView>, s: Seq<u32>)
    requires
        forall|p: int| 0 <= p < s.len() ==> (#[trigger] s[p]) < ms.len(),
        forall|j: int| 0 <= j < ms.len() ==> (#[trigger] ms[j]).amount > 0,
    ensures
        0 <= refund_total(ms, s),
    decreases s.len(),
{
    if s.len() > 0 {
        lemma_refund_total_nonneg(ms, s.drop_last());
        assert(s.last() == s[s.len() - 1]);
    }
}

/// The total amount of the milestones that `indices` name, or the error the
/// first unusable index causes, or `PotentialOverflow` when the total does
/// not fit.
fn refund_amount(ms: &Vec<Milestone>, milestone_indices: &Vec<u32>) -> (r: Result<i128, Error>)
    requires
        forall|j: int| 0 <= j < ms@.len() ==> milestone_wf(#[trigger] milestones_view(ms@)[j]),
    ensures
        r == (if refund_index_error(milestones_view(ms@), milestone_indices@) is Some {
            Err(refund_index_error(milestones_view(ms@), milestone_indices@)->Some_0)
        } else if refund_total(milestones_view(ms@), milestone_indices@) > i128::MAX {
            Err(Error::PotentialOverflow)
        } else {
            Ok(refund_total(milestones_view(ms@), milestone_indices@) as i128)
        }),
        r matches Ok(t) ==> t == refund_total(milestones_view(ms@), milestone_indices@),
        r is Ok ==> forall|p: int|
            0 <= p < milestone_indices@.len() ==> (#[trigger] milestone_indices@[p]) < ms@.len(),
{
    let ghost ms0 = milestones_view(ms@);
    let ghost s = milestone_indices@;
    let n = ms.len();
    proof {
        assert(s.skip(0) =~= s);
    }
    let mut k: usize = 0;
    while k < milestone_indices.len()
        invariant
            n == ms0.len(),
            ms0 == milestones_view(ms@),
            s == milestone_indices@,
            k <= s.len(),
            refund_index_error(ms0, s) == refund_index_error(ms0, s.skip(k as int)),
            forall|p: int| 0 <= p < k ==> (#[trigger] s[p]) < n,
        decreases s.len() - k,
    {
        proof {
            assert(s.skip(k as int).drop_first() =~= s.skip(k + 1));
            assert(s.skip(k as int)[0] == s[k as int]);
        }
        let idx = milestone_indices[k];
        if idx as usize >= n {
            return Err(Error::IndexOutOfBounds);
        }
        if ms[idx as usize].released {
            return Err(Error::AlreadyReleased);
        }
        if ms[idx as usize].refunded {
            return Err(Error::AlreadyRefunded);
        }
        k = k + 1;
    }
    proof {
        assert(s.skip(s.len() as int) =~= Seq::<u32>::empty());
        assert forall|j: int| 0 <= j < ms0.len() implies (#[trigger] ms0[j]).amount > 0 by {
            assert(milestone_wf(ms0[j]));
        }
    }
    let mut total: i128 = 0;
    let mut k: usize = 0;
    while k < milestone_indices.len()
        invariant
            n == ms0.len(),
            ms0 == milestones_view(ms@),
            s == milestone_indices@,
            k <= s.len(),
            refund_index_error(ms0, s) is None,
            forall|p: int| 0 <= p < s.len() ==> (#[trigger] s[p]) < n,
            forall|j: int| 0 <= j < ms0.len() ==> (#[trigger] ms0[j]).amount > 0,
            total == refund_total(ms0, s.take(k as int)),
        decreases s.len() - k,
    {
        proof {
            assert(s.take(k + 1).drop_last() =~= s.take(k as int));
            assert(s.take(k + 1).last() == s[k as int]);
            lemma_refund_total_prefix_le(ms0, s, k + 1);
        }
        let idx = milestone_indices[k];
        total = match total.checked_add(ms[idx as usize].amount) {
            Some(t) => t,
            None => return Err(Error::PotentialOverflow),
        };
        k = k + 1;
    }
    proof {
        assert(s.take(s.len() as int) =~= s);
    }
    Ok(total)
}

fn has_duplicates_exec(indices: &Vec<u32>) -> (r: bool)
    ensures
        r == has_duplicates(indices@),
{
    let n = indices.len();
    let mut i: usize = 0;
    while i < n
        invariant
            n == indices@.len(),
            i <= n,
            forall|p: int, q: int| 0 <= p < i && p < q < n ==> indices@[p] != indices@[q],
        decreases n - i,
    {
        let mut j: usize = i + 1;
        while j < n
            invariant
                n == indices@.len(),
                i < n,
                i + 1 <= j <= n,
                forall|p: int, q: int| 0 <= p < i && p < q < n ==> indices@[p] != indices@[q],
                forall|q: int| i < q < j ==> indices@[i as int] != indices@[q],
            decreases n - j,
        {
            if indices[i] == indices[j] {
                assert(indices@[i as int] == indices@[j as int]);
                return true;
            }
            j = j + 1;
        }
        i = i + 1;
    }
    assert(!has_duplicates(indices@)) by {
        if has_duplicates(indices@) {
            let (p, q) = choose|p: int, q: int|
                0 <= p < q < indices@.len() && #[trigger] indices@[p] == #[trigger] indices@[q];
            assert(indices@[p] != indices@[q]);
        }
    }
    false
}

/// Refuses a refund request that names some milestone twice.
pub fn check_no_duplicates(milestone_indices: &Vec<u32>) -> (r: Result<(), Error>)
    ensures
        r is Err <==> has_duplicates(milestone_indices@),
        r matches Err(e) ==> e == Error::DuplicateMilestoneInRefund,
{
    if has_duplicates_exec(milestone_indices) {
        Err(Error::DuplicateMilestoneInRefund)
    } else {
        Ok(())
    }
}

fn contains_index(indices: &Vec<u32>, j: u32) -> (r: bool)
    ensures
        r == indices@.contains(j),
{
    let mut k: usize = 0;
    while k < indices.len()
        invariant
            k <= indices@.len(),
            forall|p: int| 0 <= p < k ==> indices@[p] != j,
        decreases indices@.len() - k,
    {
        if indices[k] == j {
            assert(indices@[k as int] == j);
            return true;
        }
        k = k + 1;
    }
    false
}

/// Whether, after refunding `indices`, every milestone would be settled and
/// every milestone would be refunded.
fn settled_after_refund(ms: &Vec<Milestone>, indices: &Vec<u32>) -> (r: (bool, bool))
    requires
        ms@.len() <= u32::MAX,
    ensures
        r.0 == all_settled(refunded_milestones(milestones_view(ms@), indices@)),
        r.1 == all_refunded(refunded_milestones(milestones_view(ms@), indices@)),
{
    let ghost target = refunded_milestones(milestones_view(ms@), indices@);
    let mut settled = true;
    let mut refunded = true;
    let mut k: usize = 0;
    while k < ms.len()
        invariant
            ms@.len() <= u32::MAX,
            k <= ms@.len(),
            target == refunded_milestones(milestones_view(ms@), indices@),
            settled == (forall|j: int| 0 <= j < k ==> (#[trigger] target[j]).released || target[j].refunded),
            refunded == (forall|j: int| 0 <= j < k ==> (#[trigger] target[j]).refunded),
        decreases ms@.len() - k,
    {
        let named = contains_index(indices, k as u32);
        let is_refunded = ms[k].refunded || named;
        let is_settled = ms[k].released || is_refunded;
        proof {
            assert(target[k as int].refunded == is_refunded);
            assert(target[k as int].released == ms@[k as int].released);
        }
        settled = settled && is_settled;
        refunded = refunded && is_refunded;
        k = k + 1;
    }
    (settled, refunded)
}

/// Marks the milestones that `indices` name as refunded.
fn mark_refunded(ms: &mut Vec<Milestone>, indices: &Vec<u32>)
    requires
        !has_duplicates(indices@),
        forall|k: int| 0 <= k < indices@.len() ==> (#[trigger] indices@[k]) < old(ms)@.len(),
        old(ms)@.len() <= u32::MAX,
    ensures
        milestones_view(final(ms)@) == refunded_milestones(milestones_view(old(ms)@), indices@),
{
    let ghost ms0 = milestones_view(ms@);
    let mut k: usize = 0;
    while k < indices.len()
        invariant
            !has_duplicates(indices@),
            forall|p: int| 0 <= p < indices@.len() ==> (#[trigger] indices@[p]) < ms0.len(),
            ms0.len() <= u32::MAX,
            k <= indices@.len(),
            ms@.len() == ms0.len(),
            milestones_view(ms@) == refunded_milestones(ms0, indices@.take(k as int)),
        decreases indices@.len() - k,
    {
        let idx = indices[k] as usize;
        let ghost before = milestones_view(ms@);
        let amount = ms[idx].amount;
        ms[idx].refunded = true;
        ms[idx].refunded_amount = amount;
        proof {
            let t0 = indices@.take(k as int);
            let t1 = indices@.take(k + 1);
            assert(t1 =~= t0.push(indices@[k as int]));
            assert(!t0.contains(idx as u32)) by {
                if t0.contains(idx as u32) {
                    let p = choose|p: int| 0 <= p < t0.len() && t0[p] == idx as u32;
                    assert(indices@[p] == indices@[k as int]);
                }
            }
            assert forall|j: int| 0 <= j < ms0.len() implies #[trigger] milestones_view(ms@)[j]
                == refunded_milestones(ms0, t1)[j] by {
                assert((j as u32) as int == j);
                if j == idx as int {
                    assert(t1[k as int] == indices@[k as int]);
                    assert(indices@[k as int] == j as u32);
                    assert(t1.contains(j as u32));
                    assert(!t0.contains(j as u32));
                    assert(before[j] == refunded_milestones(ms0, t0)[j]);
                    assert(before[j] == ms0[j]);
                    assert(milestones_view(ms@)[j] == MilestoneView { refunded: true, refunded_amount: amount, ..before[j] });
                } else {
                    assert(milestones_view(ms@)[j] == before[j]);
                    assert(t1.contains(j as u32) == t0.contains(j as u32)) by {
                        if t1.contains(j as u32) {
                            let p = choose|p: int| 0 <= p < t1.len() && t1[p] == j as u32;
                            if p < t0.len() {
                                assert(t0[p] == j as u32);
                            }
                        }
                    }
                }
            }
            assert(milestones_view(ms@) =~= refunded_milestones(ms0, t1));
        }
        k = k + 1;
    }
    proof {
        assert(indices@.take(indices@.len() as int) =~= indices@);
    }
}

impl Escrow {
    /// Refunds the named unreleased milestones of a contract to its client
    /// (client-authorized) and returns the total and the payout the host
    /// must make.
    #[verifier::loop_isolation(false)]
    pub fn refund_unreleased_milestones(&mut self, contract_id: u32, milestone_indices: Vec<u32>) -> (r:
        Result<RefundReceipt, Error>)
        requires
            old(self).wf(),
        ensures
            final(self).wf(),
            failed_unchanged(
                r,
                refund_error(old(self)@, contract_id, milestone_indices@),
                old(self)@,
                final(self)@,
            ),
            r matches Ok(receipt) ==> {
                let total = refund_total(old(self)@.rec(contract_id).milestones, milestone_indices@);
                &&& receipt.refunded == total
                &&& receipt.payout == Transfer::FromEscrow {
                    token: old(self)@.settlement_token->Some_0,
                    to: old(self)@.rec(contract_id).contract.client,
                    amount: total as i128,
                }
                &&& final(self)@ == refunded_state(old(self)@, contract_id, milestone_indices@)
            },
    {
        self.pause_gate()?;
        if milestone_indices.len() == 0 {
            return Err(Error::EmptyRefundRequest);
        }
        check_no_duplicates(&milestone_indices)?;
        let pos = match self.position(contract_id) {
            Some(p) => p,
            None => return Err(Error::ContractNotFound),
        };
        proof {
            assert(record_wf(self@.records[pos as int]));
        }
        if self.records[pos].finalization.is_some() {
            return Err(Error::AlreadyFinalized);
        }
        let c = self.records[pos].contract;
        match c.status {
            ContractStatus::Created | ContractStatus::Funded | ContractStatus::Disputed => {},
            _ => return Err(Error::InvalidState),
        }
        proof {
            let rr = self@.records[pos as int];
            assert forall|j: int| 0 <= j < self.records@[pos as int].milestones@.len() implies milestone_wf(
                #[trigger] milestones_view(self.records@[pos as int].milestones@)[j],
            ) by {
                assert(milestone_wf(rr.milestones[j]));
            }
        }
        let total = refund_amount(&self.records[pos].milestones, &milestone_indices)?;
        let available = c.funded_amount - c.released_amount - c.refunded_amount;
        if available < total {
            assert(self@.rec(contract_id) == self@.records[pos as int]);
            assert(self@.rec(contract_id).milestones == milestones_view(self.records@[pos as int].milestones@));
            assert(refund_index_error(self@.rec(contract_id).milestones, milestone_indices@) is None);
            assert(refund_total(self@.rec(contract_id).milestones, milestone_indices@) == total);
            assert(available_balance(self@.rec(contract_id).contract) < total);
            assert(refund_error(self@, contract_id, milestone_indices@) == Some(Error::InsufficientFunds));
            return Err(Error::InsufficientFunds);
        }
        let token = match self.settlement_token {
            Some(t) => t,
            None => return Err(Error::SettlementTokenNotConfigured),
        };
        let (settled, refunded_all) = settled_after_refund(
            &self.records[pos].milestones,
            &milestone_indices,
        );
        let completes = settled && !refunded_all;
        let freelancer = c.freelancer;
        let credit = self.credit(&freelancer);
        if completes && credit == i128::MAX {
            return Err(Error::PotentialOverflow);
        }
        let ghost old_view = self@;
        let ghost old_records = self.records@;
        let ghost r0 = self@.records[pos as int];
        let mut ms: Vec<Milestone> = Vec::new();
        std::mem::swap(&mut ms, &mut self.records[pos].milestones);
        mark_refunded(&mut ms, &milestone_indices);
        std::mem::swap(&mut ms, &mut self.records[pos].milestones);
        let status = if settled {
            if refunded_all {
                ContractStatus::Refunded
            } else {
                ContractStatus::Completed
            }
        } else {
            c.status
        };
        self.records[pos].contract.refunded_amount = c.refunded_amount + total;
        self.records[pos].contract.status = status;
        proof {
            let ms0 = r0.milestones;
            let s = milestone_indices@;
            let ms2 = refunded_milestones(ms0, s);
            let expected = RecordView {
                contract: Contract {
                    refunded_amount: (c.refunded_amount + total) as i128,
                    status,
                    ..c
                },
                milestones: ms2,
                ..r0
            };
            assert(self.records@[pos as int]@ == expected);
            assert forall|k: int| 0 <= k < self.records@.len() && k != pos implies records_view(
                self.records@,
            )[k] == old_view.records[k] by {
                assert(self.records@[k] == old_records[k]);
            }
            assert(self@.records =~= old_view.records.update(pos as int, expected));
            assert forall|j: int| 0 <= j < ms2.len() implies milestone_wf(#[trigger] ms2[j]) by {
                assert(milestone_wf(ms0[j]));
            }
            crate::state::lemma_total_amount_same(ms2, ms0);
            crate::state::lemma_total_funded_same(ms2, ms0);
            assert(1 <= expected.milestones.len() <= u32::MAX);
            assert(expected.approvals.len() == expected.milestones.len());
            assert(total_amount(expected.milestones) <= i128::MAX);
            assert forall|j: int| 0 <= j < ms0.len() implies (#[trigger] ms0[j]).amount > 0 by {
                assert(milestone_wf(ms0[j]));
            }
            lemma_refund_total_nonneg(ms0, s);
            assert(accounting_sound(expected.contract));
            assert(expected.contract.total_deposited == expected.contract.funded_amount);
            assert(record_wf(expected));
        }
        if completes {
            self.set_credit(freelancer, credit + 1);
        }
        Ok(
            RefundReceipt {
                refunded: total,
                payout: Transfer::FromEscrow { token, to: c.client, amount: total },
            },
        )
    }
}

} // verus!
