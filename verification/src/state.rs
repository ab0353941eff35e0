use vstd::prelude::*;

use crate::book::AddressBook;
use crate::types::{
    opt_bytes_view, Address, Contract, ContractStatus, Error, FinalizationRecord,
    FinalizationRecordView, GovernedParameters, Milestone, MilestoneView, PendingAdminProposal,
    PendingClientMigration, ReadinessChecklist, Reputation, StoredApprovals,
};

verus! {

/// Everything the escrow keeps about one contract.
pub struct ContractRecord {
    pub contract: Contract,
    pub milestones: Vec<Milestone>,
    /// One approval slot per milestone.
    pub approvals: Vec<Option<StoredApprovals>>,
    /// Feedback written when reputation was issued.
    pub comment: Option<Vec<u8>>,
    pub migration: Option<PendingClientMigration>,
    pub finalization: Option<FinalizationRecord>,
}

/// Mathematical model of a [`ContractRecord`].
pub struct RecordView {
    pub contract: Contract,
    pub milestones: Seq<MilestoneView>,
    pub approvals: Seq<Option<StoredApprovals>>,
    pub comment: Option<Seq<u8>>,
    pub migration: Option<PendingClientMigration>,
    pub finalization: Option<FinalizationRecordView>,
}

pub open spec fn milestones_view(ms: Seq<Milestone>) -> Seq<MilestoneView> {
    ms.map_values(|m: Milestone| m@)
}

pub open spec fn opt_finalization_view(o: Option<FinalizationRecord>) -> Option<
    FinalizationRecordView,
> {
    match o {
        Some(f) => Some(f@),
        None => None,
    }
}

impl View for ContractRecord {
    type V = RecordView;

    open spec fn view(&self) -> RecordView {
        RecordView {
            contract: self.contract,
            milestones: milestones_view(self.milestones@),
            approvals: self.approvals@,
            comment: opt_bytes_view(self.comment),
            migration: self.migration,
            finalization: opt_finalization_view(self.finalization),
        }
    }
}

/// The whole state of the escrow: global settings and every contract.
///
/// Contract `id` (counted from 1) is the record at position `id - 1`.
pub struct Escrow {
    pub initialized: bool,
    pub admin: Option<Address>,
    pub paused: bool,
    pub emergency: bool,
    pub settlement_token: Option<Address>,
    pub next_contract_id: u32,
    pub records: Vec<ContractRecord>,
    pub credits: AddressBook<i128>,
    pub reputations: AddressBook<Reputation>,
    pub protocol_fee_bps: u32,
    pub accumulated_fees: i128,
    pub pending_admin: Option<PendingAdminProposal>,
    pub governed_params: Option<GovernedParameters>,
    pub checklist: ReadinessChecklist,
}

/// Mathematical model of the [`Escrow`] state.
pub struct EscrowView {
    pub initialized: bool,
    pub admin: Option<Address>,
    pub paused: bool,
    pub emergency: bool,
    pub settlement_token: Option<Address>,
    pub next_contract_id: u32,
    pub records: Seq<RecordView>,
    /// Pending reputation credits per freelancer.
    pub credits: Map<Address, i128>,
    pub reputations: Map<Address, Reputation>,
    pub protocol_fee_bps: u32,
    pub accumulated_fees: i128,
    pub pending_admin: Option<PendingAdminProposal>,
    pub governed_params: Option<GovernedParameters>,
    pub checklist: ReadinessChecklist,
}

pub open spec fn records_view(rs: Seq<ContractRecord>) -> Seq<RecordView> {
    rs.map_values(|r: ContractRecord| r@)
}

impl View for Escrow {
    type V = EscrowView;

    open spec fn view(&self) -> EscrowView {
        EscrowView {
            initialized: self.initialized,
            admin: self.admin,
            paused: self.paused,
            emergency: self.emergency,
            settlement_token: self.settlement_token,
            next_contract_id: self.next_contract_id,
            records: records_view(self.records@),
            credits: self.credits@,
            reputations: self.reputations@,
            protocol_fee_bps: self.protocol_fee_bps,
            accumulated_fees: self.accumulated_fees,
            pending_admin: self.pending_admin,
            governed_params: self.governed_params,
            checklist: self.checklist,
        }
    }
}

// ── Sums over milestones ─────────────────────────────────────────────────────
/// Sum of the milestone amounts.
pub open spec fn total_amount(ms: Seq<MilestoneView>) -> int
    decreases ms.len(),
{
    if ms.len() == 0 {
        0
    } else {
        total_amount(ms.drop_last()) + ms.last().amount
    }
}

/// Sum of the per-milestone funded amounts.
pub open spec fn total_funded(ms: Seq<MilestoneView>) -> int
    decreases ms.len(),
{
    if ms.len() == 0 {
        0
    } else {
        total_funded(ms.drop_last()) + ms.last().funded_amount
    }
}

/// Sum of the per-milestone refunded amounts.
pub open spec fn total_refunded(ms: Seq<MilestoneView>) -> int
    decreases ms.len(),
{
    if ms.len() == 0 {
        0
    } else {
        total_refunded(ms.drop_last()) + ms.last().refunded_amount
    }
}

/// Number of released milestones.
pub open spec fn released_count(ms: Seq<MilestoneView>) -> nat
    decreases ms.len(),
{
    if ms.len() == 0 {
        0
    } else {
        released_count(ms.drop_last()) + if ms.last().released {
            1nat
        } else {
            0nat
        }
    }
}

/// No more milestones are released than there are.
pub proof fn lemma_released_count_le(ms: Seq<MilestoneView>)
    ensures
        released_count(ms) <= ms.len(),
    decreases ms.len(),
{
    if ms.len() > 0 {
        lemma_released_count_le(ms.drop_last());
    }
}

/// Every milestone is released or refunded.
pub open spec fn all_settled(ms: Seq<MilestoneView>) -> bool {
    forall|i: int| 0 <= i < ms.len() ==> (#[trigger] ms[i]).released || ms[i].refunded
}

/// Every milestone is refunded.
pub open spec fn all_refunded(ms: Seq<MilestoneView>) -> bool {
    forall|i: int| 0 <= i < ms.len() ==> (#[trigger] ms[i]).refunded
}

/// Sum of a sequence of amounts.
pub open spec fn sum_amounts(s: Seq<i128>) -> int
    decreases s.len(),
{
    if s.len() == 0 {
        0
    } else {
        sum_amounts(s.drop_last()) + s.last()
    }
}

/// Prefix sums of positive amounts grow with the prefix.
pub proof fn lemma_sum_prefix_le(s: Seq<i128>, i: int)
    requires
        0 <= i <= s.len(),
        forall|k: int| 0 <= k < s.len() ==> s[k] > 0,
    ensures
        0 <= sum_amounts(s.take(i)) <= sum_amounts(s),
    decreases s.len() - i,
{
    if i < s.len() {
        lemma_sum_prefix_le(s, i + 1);
        assert(s.take(i + 1).drop_last() =~= s.take(i));
        lemma_sum_nonneg(s.take(i));
    } else {
        assert(s.take(i) =~= s);
        lemma_sum_nonneg(s);
    }
}

pub proof fn lemma_sum_nonneg(s: Seq<i128>)
    requires
        forall|k: int| 0 <= k < s.len() ==> s[k] > 0,
    ensures
        0 <= sum_amounts(s),
    decreases s.len(),
{
    if s.len() > 0 {
        lemma_sum_nonneg(s.drop_last());
    }
}

/// Milestones carrying the given amounts have those amounts as their total.
pub proof fn lemma_total_amount_matches(ms: Seq<MilestoneView>, s: Seq<i128>)
    requires
        ms.len() == s.len(),
        forall|k: int| 0 <= k < s.len() ==> (#[trigger] ms[k]).amount == s[k],
    ensures
        total_amount(ms) == sum_amounts(s),
    decreases s.len(),
{
    if s.len() > 0 {
        lemma_total_amount_matches(ms.drop_last(), s.drop_last());
    }
}

/// Totals of prefixes of well-formed milestones grow with the prefix.
pub proof fn lemma_total_amount_prefix_le(ms: Seq<MilestoneView>, i: int)
    requires
        0 <= i <= ms.len(),
        forall|k: int| 0 <= k < ms.len() ==> (#[trigger] ms[k]).amount > 0,
    ensures
        0 <= total_amount(ms.take(i)) <= total_amount(ms),
    decreases ms.len() - i,
{
    if i < ms.len() {
        lemma_total_amount_prefix_le(ms, i + 1);
        assert(ms.take(i + 1).drop_last() =~= ms.take(i));
        lemma_total_amount_nonneg(ms.take(i));
    } else {
        assert(ms.take(i) =~= ms);
        lemma_total_amount_nonneg(ms);
    }
}

pub proof fn lemma_total_amount_nonneg(ms: Seq<MilestoneView>)
    requires
        forall|k: int| 0 <= k < ms.len() ==> (#[trigger] ms[k]).amount > 0,
    ensures
        0 <= total_amount(ms),
    decreases ms.len(),
{
    if ms.len() > 0 {
        lemma_total_amount_nonneg(ms.drop_last());
    }
}

/// Milestones with the same amounts have the same total.
pub proof fn lemma_total_amount_same(a: Seq<MilestoneView>, b: Seq<MilestoneView>)
    requires
        a.len() == b.len(),
        forall|k: int| 0 <= k < a.len() ==> (#[trigger] a[k]).amount == b[k].amount,
    ensures
        total_amount(a) == total_amount(b),
    decreases a.len(),
{
    if a.len() > 0 {
        lemma_total_amount_same(a.drop_last(), b.drop_last());
    }
}

/// Milestones with the same funded amounts have the same funded total.
pub proof fn lemma_total_funded_same(a: Seq<MilestoneView>, b: Seq<MilestoneView>)
    requires
        a.len() == b.len(),
        forall|k: int| 0 <= k < a.len() ==> (#[trigger] a[k]).funded_amount == b[k].funded_amount,
    ensures
        total_funded(a) == total_funded(b),
    decreases a.len(),
{
    if a.len() > 0 {
        lemma_total_funded_same(a.drop_last(), b.drop_last());
    }
}

/// Milestones that hold nothing hold nothing together.
pub proof fn lemma_total_funded_zero(a: Seq<MilestoneView>)
    requires
        forall|k: int| 0 <= k < a.len() ==> (#[trigger] a[k]).funded_amount == 0,
    ensures
        total_funded(a) == 0,
    decreases a.len(),
{
    if a.len() > 0 {
        lemma_total_funded_zero(a.drop_last());
    }
}

// ── Well-formedness ──────────────────────────────────────────────────────────
/// The accounting invariant of a contract: nothing negative, and no more
/// released and refunded together than was funded.
pub open spec fn accounting_sound(c: Contract) -> bool {
    &&& 0 <= c.released_amount
    &&& 0 <= c.refunded_amount
    &&& c.released_amount + c.refunded_amount <= c.funded_amount
}

pub open spec fn milestone_wf(m: MilestoneView) -> bool {
    &&& m.amount > 0
    &&& 0 <= m.funded_amount <= m.amount
    &&& 0 <= m.refunded_amount <= m.amount
}

pub open spec fn record_wf(r: RecordView) -> bool {
    &&& 1 <= r.milestones.len() <= u32::MAX
    &&& r.approvals.len() == r.milestones.len()
    &&& forall|i: int| 0 <= i < r.milestones.len() ==> milestone_wf(#[trigger] r.milestones[i])
    &&& total_amount(r.milestones) <= i128::MAX
    &&& accounting_sound(r.contract)
    &&& r.contract.total_deposited == r.contract.funded_amount
    &&& total_funded(r.milestones) == r.contract.funded_amount
    &&& r.finalization is Some ==> (r.contract.status is Completed || r.contract.status is Disputed)
}

impl EscrowView {
    /// Whether contract `id` exists.
    pub open spec fn has_contract(self, id: u32) -> bool {
        1 <= id <= self.records.len()
    }

    /// The record of contract `id` (meaningful when it exists).
    pub open spec fn rec(self, id: u32) -> RecordView {
        self.records[id - 1]
    }

    /// The state with the record of contract `id` replaced by `r`.
    pub open spec fn with_rec(self, id: u32, r: RecordView) -> EscrowView {
        EscrowView { records: self.records.update(id - 1, r), ..self }
    }

    /// Whether contract `id` exists and has been finalized.
    pub open spec fn is_finalized(self, id: u32) -> bool {
        self.has_contract(id) && self.rec(id).finalization is Some
    }

    /// The well-formedness of the model.
    pub open spec fn wf(self) -> bool {
        &&& 1 <= self.next_contract_id <= self.records.len() + 1
        &&& self.records.len() < u32::MAX
        &&& self.initialized == (self.admin is Some)
        &&& self.accumulated_fees >= 0
        &&& self.protocol_fee_bps <= 10_000
        &&& forall|i: int| 0 <= i < self.records.len() ==> record_wf(#[trigger] self.records[i])
        &&& forall|i: int|
            0 <= i < self.records.len() && holds_deposits(#[trigger] self.records[i].contract.status)
                ==> self.settlement_token is Some
    }
}

/// The statuses a contract can only reach through a deposit, which needs a
/// settlement token.
pub open spec fn holds_deposits(status: ContractStatus) -> bool {
    status is Funded || status is PartiallyFunded || status is Disputed
}

/// The error the pause gate answers with, if any.
pub open spec fn pause_error(v: EscrowView) -> Option<Error> {
    if v.paused {
        Some(Error::ContractPaused)
    } else if v.emergency {
        Some(Error::EmergencyActive)
    } else {
        None
    }
}

/// The outcome of an operation that either fails with the first error of a
/// chain of checks, leaving the state as it was, or succeeds.
pub open spec fn failed_unchanged<T>(
    r: Result<T, Error>,
    expected: Option<Error>,
    before: EscrowView,
    after: EscrowView,
) -> bool {
    match r {
        Err(e) => expected == Some(e) && after == before,
        Ok(_) => expected is None,
    }
}

impl Escrow {
    /// The well-formedness of the escrow state.
    pub open spec fn wf(&self) -> bool {
        &&& self@.wf()
        &&& self.credits.wf()
        &&& self.reputations.wf()
    }

    /// A fresh, uninitialized escrow.
    pub fn new() -> (r: Escrow)
        ensures
            r.wf(),
            r@ == (EscrowView {
                initialized: false,
                admin: None,
                paused: false,
                emergency: false,
                settlement_token: None,
                next_contract_id: 1,
                records: Seq::empty(),
                credits: Map::empty(),
                reputations: Map::empty(),
                protocol_fee_bps: 0,
                accumulated_fees: 0,
                pending_admin: None,
                governed_params: None,
                checklist: ReadinessChecklist {
                    initialized: false,
                    governed_params_set: false,
                    emergency_controls_enabled: false,
                },
            }),
    {
        let r = Escrow {
            initialized: false,
            admin: None,
            paused: false,
            emergency: false,
            settlement_token: None,
            next_contract_id: 1,
            records: Vec::new(),
            credits: AddressBook::new(),
            reputations: AddressBook::new(),
            protocol_fee_bps: 0,
            accumulated_fees: 0,
            pending_admin: None,
            governed_params: None,
            checklist: ReadinessChecklist::default(),
        };
        assert(r@.records =~= Seq::<RecordView>::empty());
        r
    }

    /// Position of contract `contract_id` among the records, if it exists.
    pub fn position(&self, contract_id: u32) -> (r: Option<usize>)
        ensures
            match r {
                Some(i) => self@.has_contract(contract_id) && i == contract_id - 1,
                None => !self@.has_contract(contract_id),
            },
    {
        if contract_id >= 1 && (contract_id as usize) <= self.records.len() {
            Some((contract_id - 1) as usize)
        } else {
            None
        }
    }

    /// Answers `ContractPaused` or `EmergencyActive` while either flag is set.
    pub fn pause_gate(&self) -> (r: Result<(), Error>)
        ensures
            r is Err <==> pause_error(self@) is Some,
            r matches Err(e) ==> pause_error(self@) == Some(e),
    {
        if self.paused {
            return Err(Error::ContractPaused);
        }
        if self.emergency {
            return Err(Error::EmergencyActive);
        }
        Ok(())
    }
}

/// The pending reputation credits of `a` (0 when none were ever granted).
pub open spec fn credit_of(v: EscrowView, a: Address) -> i128 {
    if v.credits.contains_key(a) {
        v.credits[a]
    } else {
        0
    }
}

impl Escrow {
    /// The pending reputation credits of `a`.
    pub(crate) fn credit(&self, a: &Address) -> (r: i128)
        requires
            self.wf(),
        ensures
            r == credit_of(self@, *a),
    {
        match self.credits.get(a) {
            Some(c) => c,
            None => 0,
        }
    }

    /// Sets the pending reputation credits of `a`.
    pub(crate) fn set_credit(&mut self, a: Address, value: i128)
        requires
            old(self).wf(),
        ensures
            final(self).wf(),
            final(self)@ == (EscrowView { credits: old(self)@.credits.insert(a, value), ..old(self)@ }),
    {
        self.credits.insert(a, value);
    }
}

/// The sum of the milestone amounts.
pub fn milestones_total(ms: &Vec<Milestone>) -> (total: i128)
    requires
        forall|k: int| 0 <= k < ms@.len() ==> milestone_wf(#[trigger] milestones_view(ms@)[k]),
        total_amount(milestones_view(ms@)) <= i128::MAX,
    ensures
        total == total_amount(milestones_view(ms@)),
{
    let ghost mv = milestones_view(ms@);
    proof {
        assert forall|k: int| 0 <= k < mv.len() implies (#[trigger] mv[k]).amount > 0 by {
            assert(milestone_wf(mv[k]));
        }
    }
    let mut total: i128 = 0;
    let mut i: usize = 0;
    while i < ms.len()
        invariant
            mv == milestones_view(ms@),
            forall|k: int| 0 <= k < mv.len() ==> (#[trigger] mv[k]).amount > 0,
            total_amount(mv) <= i128::MAX,
            i <= ms@.len(),
            total == total_amount(mv.take(i as int)),
        decreases ms@.len() - i,
    {
        proof {
            assert(mv.take(i + 1).drop_last() =~= mv.take(i as int));
            assert(mv.take(i + 1).last() == mv[i as int]);
            lemma_total_amount_prefix_le(mv, i + 1);
        }
        total = total + ms[i].amount;
        i = i + 1;
    }
    proof {
        assert(mv.take(ms@.len() as int) =~= mv);
    }
    total
}

/// Every well-formed escrow satisfies the accounting invariant for every
/// contract: released and refunded amounts are never negative and never
/// exceed, together, the amount funded; and the per-milestone funded
/// amounts add up to the contract's funded amount.
pub proof fn lemma_accounting_invariant(e: &Escrow, contract_id: u32)
    requires
        e.wf(),
        e@.has_contract(contract_id),
    ensures
        accounting_sound(e@.rec(contract_id).contract),
        total_funded(e@.rec(contract_id).milestones) == e@.rec(contract_id).contract.funded_amount,
        e@.rec(contract_id).contract.funded_amount <= total_amount(e@.rec(contract_id).milestones),
{
    let r = e@.records[contract_id - 1];
    assert(record_wf(r));
    assert forall|k: int| 0 <= k < r.milestones.len() implies (#[trigger] r.milestones[k]).funded_amount
        <= r.milestones[k].amount by {
        assert(milestone_wf(r.milestones[k]));
    }
    lemma_funded_le_amount(r.milestones);
}

/// The funded total never exceeds the amount total when no milestone holds
/// more than its amount.
pub proof fn lemma_funded_le_amount(ms: Seq<MilestoneView>)
    requires
        forall|k: int| 0 <= k < ms.len() ==> (#[trigger] ms[k]).funded_amount <= ms[k].amount,
    ensures
        total_funded(ms) <= total_amount(ms),
    decreases ms.len(),
{
    if ms.len() > 0 {
        lemma_funded_le_amount(ms.drop_last());
    }
}

} // verus!
