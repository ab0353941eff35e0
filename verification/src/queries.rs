//! Read-only views of contracts, and finalization.
use vstd::prelude::*;

use crate::reputation::copy_bytes;
use crate::state::{
    failed_unchanged, milestone_wf, milestones_view, opt_finalization_view, pause_error,
    record_wf, records_view, released_count, total_amount, Escrow, EscrowView, RecordView,
};
use crate::types::{
    opt_bytes_view, Address, Contract, ContractStatus, ContractSummary, ContractSummaryView,
    Error, FinalizationRecord, FinalizationRecordView, Ledger, Milestone, MilestoneSummary,
    MilestoneView, CONTRACT_SUMMARY_SCHEMA_VERSION,
};

verus! {

/// One summary line per milestone.
pub open spec fn milestone_summaries(ms: Seq<MilestoneView>) -> Seq<MilestoneSummary> {
    Seq::new(
        ms.len(),
        |i: int|
            MilestoneSummary {
                index: i as u32,
                amount: ms[i].amount,
                released: ms[i].released,
                refunded: ms[i].refunded,
            },
    )
}

/// The summary of a record, reporting `reputation_issued` as given.
pub open spec fn summary_of(r: RecordView, reputation_issued: bool) -> ContractSummaryView {
    let c = r.contract;
    ContractSummaryView {
        schema_version: CONTRACT_SUMMARY_SCHEMA_VERSION,
        client: c.client,
        freelancer: c.freelancer,
        arbiter: c.arbiter,
        status: c.status,
        reputation_issued,
        total_amount: total_amount(r.milestones) as i128,
        funded_amount: c.funded_amount,
        released_amount: c.released_amount,
        refundable_balance: (c.funded_amount - c.released_amount - c.refunded_amount) as i128,
        released_milestone_count: released_count(r.milestones) as u32,
        milestones: milestone_summaries(r.milestones),
    }
}

/// The first check that `finalize_contract` fails, if any.
pub open spec fn finalize_error(v: EscrowView, contract_id: u32, finalizer: Address) -> Option<Error> {
    let c = v.rec(contract_id).contract;
    if pause_error(v) is Some {
        pause_error(v)
    } else if !v.has_contract(contract_id) {
        Some(Error::ContractNotFound)
    } else if v.rec(contract_id).finalization is Some {
        Some(Error::AlreadyFinalized)
    } else if finalizer != c.client && finalizer != c.freelancer && c.arbiter != Some(finalizer) {
        Some(Error::UnauthorizedRole)
    } else if !(c.status is Completed || c.status is Disputed) {
        Some(Error::InvalidStatusTransition)
    } else {
        None
    }
}

/// The state after contract `contract_id` was finalized by `finalizer`.
pub open spec fn finalized_state(v: EscrowView, contract_id: u32, finalizer: Address, ledger: Ledger) -> EscrowView {
    let r = v.rec(contract_id);
    v.with_rec(
        contract_id,
        RecordView {
            finalization: Some(
                FinalizationRecordView {
                    finalizer,
                    timestamp: ledger.timestamp,
                    summary: summary_of(r, false),
                },
            ),
            ..r
        },
    )
}

/// The first check that `submit_work_evidence` fails, if any.
pub open spec fn submit_evidence_error(
    v: EscrowView,
    contract_id: u32,
    caller: Address,
    milestone_index: u32,
    evidence: Seq<u8>,
) -> Option<Error> {
    let r = v.rec(contract_id);
    let i = milestone_index as int;
    if pause_error(v) is Some {
        pause_error(v)
    } else if !v.has_contract(contract_id) {
        Some(Error::ContractNotFound)
    } else if r.finalization is Some {
        Some(Error::AlreadyFinalized)
    } else if caller != r.contract.freelancer {
        Some(Error::UnauthorizedRole)
    } else if !(r.contract.status is Funded) {
        Some(Error::InvalidState)
    } else if evidence.len() > MAX_EVIDENCE_BYTES {
        Some(Error::EvidenceTooLong)
    } else if i >= r.milestones.len() {
        Some(Error::IndexOutOfBounds)
    } else if r.milestones[i].released {
        Some(Error::MilestoneAlreadyReleased)
    } else if r.milestones[i].refunded {
        Some(Error::AlreadyRefunded)
    } else {
        None
    }
}

/// Longest accepted work evidence reference, in bytes.
pub const MAX_EVIDENCE_BYTES: usize = 256;

/// A copy of `m`.
pub fn copy_milestone(m: &Milestone) -> (r: Milestone)
    ensures
        r@ == m@,
{
    Milestone {
        amount: m.amount,
        funded_amount: m.funded_amount,
        released: m.released,
        refunded: m.refunded,
        work_evidence: match &m.work_evidence {
            Some(e) => Some(copy_bytes(e)),
            None => None,
        },
        refunded_amount: m.refunded_amount,
    }
}

/// The summary of the contract and milestones of `r`.
fn summarize(r: &crate::state::ContractRecord, reputation_issued: bool) -> (s: ContractSummary)
    requires
        record_wf(r@),
    ensures
        s@ == summary_of(r@, reputation_issued),
{
    let ghost ms = r@.milestones;
    let c = r.contract;
    let n = r.milestones.len();
    let mut total: i128 = 0;
    let mut count: u32 = 0;
    let mut lines: Vec<MilestoneSummary> = Vec::new();
    proof {
        assert forall|k: int| 0 <= k < ms.len() implies (#[trigger] ms[k]).amount > 0 by {
            assert(milestone_wf(ms[k]));
        }
    }
    let mut i: usize = 0;
    while i < n
        invariant
            n == ms.len(),
            ms == r@.milestones,
            n <= u32::MAX,
            total_amount(ms) <= i128::MAX,
            forall|k: int| 0 <= k < ms.len() ==> (#[trigger] ms[k]).amount > 0,
            i <= n,
            total == total_amount(ms.take(i as int)),
            count == released_count(ms.take(i as int)),
            count <= i,
            lines@ == milestone_summaries(ms).take(i as int),
        decreases n - i,
    {
        proof {
            assert(ms.take(i + 1).drop_last() =~= ms.take(i as int));
            assert(ms.take(i + 1).last() == ms[i as int]);
            crate::state::lemma_total_amount_prefix_le(ms, i + 1);
        }
        let m = &r.milestones[i];
        total = total + m.amount;
        if m.released {
            count = count + 1;
        }
        lines.push(
            MilestoneSummary {
                index: i as u32,
                amount: m.amount,
                released: m.released,
                refunded: m.refunded,
            },
        );
        i = i + 1;
        proof {
            assert(lines@ =~= milestone_summaries(ms).take(i as int));
        }
    }
    proof {
        assert(ms.take(n as int) =~= ms);
        assert(milestone_summaries(ms).take(n as int) =~= milestone_summaries(ms));
    }
    ContractSummary {
        schema_version: CONTRACT_SUMMARY_SCHEMA_VERSION,
        client: c.client,
        freelancer: c.freelancer,
        arbiter: c.arbiter,
        status: c.status,
        reputation_issued,
        total_amount: total,
        funded_amount: c.funded_amount,
        released_amount: c.released_amount,
        refundable_balance: c.funded_amount - c.released_amount - c.refunded_amount,
        released_milestone_count: count,
        milestones: lines,
    }
}

impl Escrow {
    /// The contract `contract_id`.
    pub fn get_contract(&self, contract_id: u32) -> (r: Result<Contract, Error>)
        ensures
            r == (if self@.has_contract(contract_id) {
                Ok(self@.rec(contract_id).contract)
            } else {
                Err(Error::ContractNotFound)
            }),
    {
        match self.position(contract_id) {
            Some(p) => Ok(self.records[p].contract),
            None => Err(Error::ContractNotFound),
        }
    }

    /// The milestones of contract `contract_id`.
    pub fn get_milestones(&self, contract_id: u32) -> (r: Result<Vec<Milestone>, Error>)
        ensures
            match r {
                Ok(ms) => self@.has_contract(contract_id) && milestones_view(ms@) == self@.rec(
                    contract_id,
                ).milestones,
                Err(e) => !self@.has_contract(contract_id) && e == Error::ContractNotFound,
            },
    {
        let p = match self.position(contract_id) {
            Some(p) => p,
            None => return Err(Error::ContractNotFound),
        };
        let src = &self.records[p].milestones;
        let mut out: Vec<Milestone> = Vec::new();
        let mut i: usize = 0;
        while i < src.len()
            invariant
                i <= src@.len(),
                out@.len() == i,
                milestones_view(out@) == milestones_view(src@).take(i as int),
            decreases src@.len() - i,
        {
            let m = copy_milestone(&src[i]);
            let ghost prev = out@;
            out.push(m);
            proof {
                assert(out@ == prev.push(m));
                assert forall|k: int| 0 <= k <= i implies #[trigger] milestones_view(out@)[k]
                    == milestones_view(src@).take(i + 1)[k] by {
                    if k < i {
                        assert(out@[k] == prev[k]);
                        assert(milestones_view(prev)[k] == milestones_view(src@).take(i as int)[k]);
                    }
                }
                assert(milestones_view(out@) =~= milestones_view(src@).take(i + 1));
            }
            i = i + 1;
        }
        proof {
            assert(milestones_view(src@).take(src@.len() as int) =~= milestones_view(src@));
        }
        Ok(out)
    }

    /// Funded minus released minus refunded for contract `contract_id`.
    pub fn get_refundable_balance(&self, contract_id: u32) -> (r: Result<i128, Error>)
        requires
            self.wf(),
        ensures
            r == (if self@.has_contract(contract_id) {
                let c = self@.rec(contract_id).contract;
                Ok((c.funded_amount - c.released_amount - c.refunded_amount) as i128)
            } else {
                Err(Error::ContractNotFound)
            }),
    {
        match self.position(contract_id) {
            Some(p) => {
                proof {
                    assert(record_wf(self@.records[p as int]));
                }
                let c = self.records[p].contract;
                Ok(c.funded_amount - c.released_amount - c.refunded_amount)
            },
            None => Err(Error::ContractNotFound),
        }
    }

    /// A structured summary of contract `contract_id` and its milestones.
    pub fn get_contract_summary(&self, contract_id: u32) -> (r: Result<ContractSummary, Error>)
        requires
            self.wf(),
        ensures
            match r {
                Ok(s) => self@.has_contract(contract_id) && s@ == summary_of(
                    self@.rec(contract_id),
                    self@.rec(contract_id).contract.reputation_issued,
                ),
                Err(e) => !self@.has_contract(contract_id) && e == Error::ContractNotFound,
            },
    {
        match self.position(contract_id) {
            Some(p) => {
                proof {
                    assert(record_wf(self@.records[p as int]));
                }
                let issued = self.records[p].contract.reputation_issued;
                Ok(summarize(&self.records[p], issued))
            },
            None => Err(Error::ContractNotFound),
        }
    }

    /// Records immutable close metadata for a completed or disputed contract
    /// (authorized by the finalizer, who must be one of its parties).
    pub fn finalize_contract(&mut self, contract_id: u32, finalizer: Address, ledger: Ledger) -> (r:
        Result<(), Error>)
        requires
            old(self).wf(),
        ensures
            final(self).wf(),
            failed_unchanged(
                r,
                finalize_error(old(self)@, contract_id, finalizer),
                old(self)@,
                final(self)@,
            ),
            r is Ok ==> final(self)@ == finalized_state(old(self)@, contract_id, finalizer, ledger),
    {
        self.pause_gate()?;
        let pos = match self.position(contract_id) {
            Some(p) => p,
            None => return Err(Error::ContractNotFound),
        };
        proof {
            assert(record_wf(self@.records[pos as int]));
        }
        if self.records[pos].finalization.is_some() {
            return Err(Error::AlreadyFinalized);
        }
        let c = self.records[pos].contract;
        let is_arbiter = match c.arbiter {
            Some(a) => a == finalizer,
            None => false,
        };
        if finalizer != c.client && finalizer != c.freelancer && !is_arbiter {
            return Err(Error::UnauthorizedRole);
        }
        match c.status {
            ContractStatus::Completed | ContractStatus::Disputed => {},
            _ => return Err(Error::InvalidStatusTransition),
        }
        let summary = summarize(&self.records[pos], false);
        let ghost old_view = self@;
        let ghost old_records = self.records@;
        self.records[pos].finalization = Some(
            FinalizationRecord { finalizer, timestamp: ledger.timestamp, summary },
        );
        proof {
            let r0 = old_view.records[pos as int];
            let expected = RecordView {
                finalization: Some(
                    FinalizationRecordView {
                        finalizer,
                        timestamp: ledger.timestamp,
                        summary: summary_of(r0, false),
                    },
                ),
                ..r0
            };
            assert(self.records@[pos as int]@ == expected);
            assert forall|k: int| 0 <= k < self.records@.len() && k != pos implies records_view(
                self.records@,
            )[k] == old_view.records[k] by {
                assert(self.records@[k] == old_records[k]);
            }
            assert(self@.records =~= old_view.records.update(pos as int, expected));
            assert(record_wf(expected));
        }
        Ok(())
    }

    /// The close metadata of contract `contract_id`, if it was finalized.
    pub fn get_finalization_record(&self, contract_id: u32) -> (r: Option<FinalizationRecord>)
        requires
            self.wf(),
        ensures
            opt_finalization_view(r) == (if self@.has_contract(contract_id) {
                self@.rec(contract_id).finalization
            } else {
                None
            }),
    {
        match self.position(contract_id) {
            Some(p) => match &self.records[p].finalization {
                Some(f) => {
                    let lines = copy_summaries(&f.summary.milestones);
                    Some(
                        FinalizationRecord {
                            finalizer: f.finalizer,
                            timestamp: f.timestamp,
                            summary: ContractSummary { milestones: lines, ..f.summary },
                        },
                    )
                },
                None => None,
            },
            None => None,
        }
    }

    /// Records a deliverable reference for an unreleased milestone of a
    /// funded contract (freelancer-authorized); may be overwritten until
    /// release.
    pub fn submit_work_evidence(
        &mut self,
        contract_id: u32,
        caller: Address,
        milestone_index: u32,
        evidence: Vec<u8>,
    ) -> (r: Result<(), Error>)
        requires
            old(self).wf(),
        ensures
            final(self).wf(),
            failed_unchanged(
                r,
                submit_evidence_error(old(self)@, contract_id, caller, milestone_index, evidence@),
                old(self)@,
                final(self)@,
            ),
            r is Ok ==> final(self)@ == ({
                let rr = old(self)@.rec(contract_id);
                let i = milestone_index as int;
                old(self)@.with_rec(
                    contract_id,
                    RecordView {
                        milestones: rr.milestones.update(
                            i,
                            MilestoneView { work_evidence: Some(evidence@), ..rr.milestones[i] },
                        ),
                        ..rr
                    },
                )
            }),
    {
        self.pause_gate()?;
        let pos = match self.position(contract_id) {
            Some(p) => p,
            None => return Err(Error::ContractNotFound),
        };
        proof {
            assert(record_wf(self@.records[pos as int]));
        }
        if self.records[pos].finalization.is_some() {
            return Err(Error::AlreadyFinalized);
        }
        let c = self.records[pos].contract;
        if caller != c.freelancer {
            return Err(Error::UnauthorizedRole);
        }
        if c.status != ContractStatus::Funded {
            return Err(Error::InvalidState);
        }
        if evidence.len() > MAX_EVIDENCE_BYTES {
            return Err(Error::EvidenceTooLong);
        }
        let i = milestone_index as usize;
        if i >= self.records[pos].milestones.len() {
            return Err(Error::IndexOutOfBounds);
        }
        if self.records[pos].milestones[i].released {
            return Err(Error::MilestoneAlreadyReleased);
        }
        if self.records[pos].milestones[i].refunded {
            return Err(Error::AlreadyRefunded);
        }
        let ghost old_view = self@;
        let ghost old_records = self.records@;
        let ghost ev = evidence@;
        self.records[pos].milestones[i].work_evidence = Some(evidence);
        proof {
            let r0 = old_view.records[pos as int];
            let expected = RecordView {
                milestones: r0.milestones.update(
                    i as int,
                    MilestoneView { work_evidence: Some(ev), ..r0.milestones[i as int] },
                ),
                ..r0
            };
            assert(self.records@[pos as int]@.milestones =~= expected.milestones);
            assert(self.records@[pos as int]@ == expected);
            assert forall|k: int| 0 <= k < self.records@.len() && k != pos implies records_view(
                self.records@,
            )[k] == old_view.records[k] by {
                assert(self.records@[k] == old_records[k]);
            }
            assert(self@.records =~= old_view.records.update(pos as int, expected));
            assert forall|k: int| 0 <= k < expected.milestones.len() implies milestone_wf(
                #[trigger] expected.milestones[k],
            ) by {
                assert(milestone_wf(r0.milestones[k]));
            }
            crate::state::lemma_total_amount_same(expected.milestones, r0.milestones);
            crate::state::lemma_total_funded_same(expected.milestones, r0.milestones);
            assert(record_wf(expected));
        }
        Ok(())
    }

    /// The work evidence of a milestone: `None` when the index is out of
    /// range or nothing was submitted.
    pub fn get_work_evidence(&self, contract_id: u32, milestone_index: u32) -> (r: Result<
        Option<Vec<u8>>,
        Error,
    >)
        ensures
            match r {
                Ok(e) => self@.has_contract(contract_id) && opt_bytes_view(e) == (
                if milestone_index < self@.rec(contract_id).milestones.len() {
                    self@.rec(contract_id).milestones[milestone_index as int].work_evidence
                } else {
                    None
                }),
                Err(e) => !self@.has_contract(contract_id) && e == Error::ContractNotFound,
            },
    {
        let pos = match self.position(contract_id) {
            Some(p) => p,
            None => return Err(Error::ContractNotFound),
        };
        let i = milestone_index as usize;
        if i >= self.records[pos].milestones.len() {
            return Ok(None);
        }
        match &self.records[pos].milestones[i].work_evidence {
            Some(e) => Ok(Some(copy_bytes(e))),
            None => Ok(None),
        }
    }
}

/// A copy of a list of summary lines.
fn copy_summaries(v: &Vec<MilestoneSummary>) -> (r: Vec<MilestoneSummary>)
    ensures
        r@ == v@,
{
    let mut r: Vec<MilestoneSummary> = Vec::new();
    let mut i: usize = 0;
    while i < v.len()
        invariant
            i <= v@.len(),
            r@ == v@.take(i as int),
        decreases v@.len() - i,
    {
        r.push(v[i]);
        i = i + 1;
        proof {
            assert(r@ =~= v@.take(i as int));
        }
    }
    proof {
        assert(v@.take(v@.len() as int) =~= v@);
    }
    r
}

} // verus!
