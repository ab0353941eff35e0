//! Funding escrow contracts.
use vstd::prelude::*;

use crate::state::{
    failed_unchanged, milestone_wf, milestones_total, milestones_view, pause_error, record_wf,
    records_view, total_amount, total_funded, Escrow, EscrowView, RecordView,
};
use crate::types::{Address, Contract, ContractStatus, Error, Milestone, MilestoneView, Transfer};

verus! {

/// What a milestone still lacks to be fully funded.
pub open spec fn need(m: MilestoneView) -> int {
    m.amount - m.funded_amount
}

/// What the milestones before position `i` still lack, together.
pub open spec fn need_before(ms: Seq<MilestoneView>, i: int) -> int
    decreases i,
{
    if i <= 0 {
        0
    } else {
        need_before(ms, i - 1) + need(ms[i - 1])
    }
}

/// The part of a deposit of `amount` that goes to milestone `i`: deposits
/// fill the milestones in order, each up to its amount.
pub open spec fn allocation(ms: Seq<MilestoneView>, amount: int, i: int) -> int {
    let left = amount - need_before(ms, i);
    if left <= 0 {
        0
    } else if left < need(ms[i]) {
        left
    } else {
        need(ms[i])
    }
}

/// The milestones after a deposit of `amount` has been spread over them.
pub open spec fn after_deposit(ms: Seq<MilestoneView>, amount: int) -> Seq<MilestoneView> {
    Seq::new(
        ms.len(),
        |i: int|
            MilestoneView {
                funded_amount: (ms[i].funded_amount + allocation(ms, amount, i)) as i128,
                ..ms[i]
            },
    )
}

/// The first check that `deposit_funds` fails, if any.
pub open spec fn deposit_error(v: EscrowView, contract_id: u32, caller: Address, amount: i128) -> Option<Error> {
    if pause_error(v) is Some {
        pause_error(v)
    } else if v.settlement_token is None {
        Some(Error::SettlementTokenNotConfigured)
    } else if amount <= 0 {
        Some(Error::InvalidDepositAmount)
    } else if !v.has_contract(contract_id) {
        Some(Error::ContractNotFound)
    } else if v.rec(contract_id).finalization is Some {
        Some(Error::AlreadyFinalized)
    } else if caller != v.rec(contract_id).contract.client {
        Some(Error::UnauthorizedRole)
    } else if !(v.rec(contract_id).contract.status is Created || v.rec(
        contract_id,
    ).contract.status is PartiallyFunded) {
        Some(Error::InvalidState)
    } else if v.rec(contract_id).contract.funded_amount + amount > i128::MAX {
        Some(Error::PotentialOverflow)
    } else if v.rec(contract_id).contract.funded_amount + amount > total_amount(
        v.rec(contract_id).milestones,
    ) {
        Some(Error::InvalidDepositAmount)
    } else if v.governed_params matches Some(p) && p.max_escrow_total_stroops > 0
        && v.rec(contract_id).contract.funded_amount + amount > p.max_escrow_total_stroops {
        Some(Error::InvalidProtocolParameters)
    } else {
        None
    }
}

/// The contract after a deposit of `amount`: funded and deposited totals
/// grow by it; the contract is `Funded` once its milestones are covered and
/// `PartiallyFunded` before.
pub open spec fn deposited_contract(c: Contract, ms: Seq<MilestoneView>, amount: i128) -> Contract {
    let funded = (c.funded_amount + amount) as i128;
    Contract {
        funded_amount: funded,
        total_deposited: (c.total_deposited + amount) as i128,
        status: if funded >= total_amount(ms) {
            ContractStatus::Funded
        } else {
            ContractStatus::PartiallyFunded
        },
        ..c
    }
}

/// The record after a deposit of `amount`.
pub open spec fn deposited_record(r: RecordView, amount: i128) -> RecordView {
    RecordView {
        contract: deposited_contract(r.contract, r.milestones, amount),
        milestones: after_deposit(r.milestones, amount as int),
        ..r
    }
}

/// What a prefix of the milestones still lacks is their amount minus what
/// they hold.
pub proof fn lemma_need_before_is_shortfall(ms: Seq<MilestoneView>, i: int)
    requires
        0 <= i <= ms.len(),
    ensures
        need_before(ms, i) == total_amount(ms.take(i)) - total_funded(ms.take(i)),
    decreases i,
{
    if i > 0 {
        lemma_need_before_is_shortfall(ms, i - 1);
        assert(ms.take(i).drop_last() =~= ms.take(i - 1));
        assert(ms.take(i).last() == ms[i - 1]);
    } else {
        assert(ms.take(0) =~= Seq::<MilestoneView>::empty());
    }
}

pub proof fn lemma_allocations_sum(ms: Seq<MilestoneView>, amount: int, i: int)
    requires
        0 <= i <= ms.len(),
        amount >= 0,
        forall|k: int| 0 <= k < ms.len() ==> milestone_wf(#[trigger] ms[k]),
    ensures
        total_funded(after_deposit(ms, amount).take(i)) == total_funded(ms.take(i)) + if amount
            < need_before(ms, i) {
            amount
        } else {
            need_before(ms, i)
        },
    decreases i,
{
    let a = after_deposit(ms, amount);
    if i > 0 {
        lemma_allocations_sum(ms, amount, i - 1);
        assert(a.take(i).drop_last() =~= a.take(i - 1));
        assert(a.take(i).last() == a[i - 1]);
        assert(ms.take(i).drop_last() =~= ms.take(i - 1));
        assert(ms.take(i).last() == ms[i - 1]);
        assert(milestone_wf(ms[i - 1]));
        assert(need(ms[i - 1]) >= 0);
        assert(a[i - 1].funded_amount == ms[i - 1].funded_amount + allocation(ms, amount, i - 1));
    } else {
        assert(a.take(0) =~= Seq::<MilestoneView>::empty());
        assert(ms.take(0) =~= Seq::<MilestoneView>::empty());
    }
}

proof fn lemma_need_before_monotone(ms: Seq<MilestoneView>, i: int, j: int)
    requires
        0 <= i <= j <= ms.len(),
        forall|k: int| 0 <= k < ms.len() ==> milestone_wf(#[trigger] ms[k]),
    ensures
        0 <= need_before(ms, i) <= need_before(ms, j),
    decreases j - i,
{
    if i < j {
        lemma_need_before_monotone(ms, i, j - 1);
        assert(milestone_wf(ms[j - 1]));
    } else {
        lemma_need_before_nonneg(ms, i);
    }
}

proof fn lemma_need_before_nonneg(ms: Seq<MilestoneView>, i: int)
    requires
        0 <= i <= ms.len(),
        forall|k: int| 0 <= k < ms.len() ==> milestone_wf(#[trigger] ms[k]),
    ensures
        0 <= need_before(ms, i),
    decreases i,
{
    if i > 0 {
        lemma_need_before_nonneg(ms, i - 1);
        assert(milestone_wf(ms[i - 1]));
    }
}


/// Spreads a deposit of `amount` over `ms` in order, each milestone up to
/// its amount, and returns the total of the milestone amounts.
fn distribute_deposit(ms: &mut Vec<Milestone>, amount: i128) -> (total: i128)
    requires
        amount > 0,
        forall|k: int| 0 <= k < old(ms)@.len() ==> milestone_wf(#[trigger] old(ms)@[k]@),
        total_amount(milestones_view(old(ms)@)) <= i128::MAX,
    ensures
        milestones_view(final(ms)@) == after_deposit(milestones_view(old(ms)@), amount as int),
        total == total_amount(milestones_view(old(ms)@)),
{
    let ghost ms0 = milestones_view(ms@);
    let n = ms.len();
    let mut remaining: i128 = amount;
    let mut total: i128 = 0;
    let mut i: usize = 0;
    proof {
        assert forall|k: int| 0 <= k < ms0.len() implies (#[trigger] ms0[k]).amount > 0 by {
            assert(milestone_wf(ms0[k]));
        }
    }
    while i < n
        invariant
            n == ms0.len(),
            ms@.len() == n,
            forall|k: int| 0 <= k < n ==> milestone_wf(#[trigger] ms0[k]),
            forall|k: int| 0 <= k < n ==> (#[trigger] ms0[k]).amount > 0,
            total_amount(ms0) <= i128::MAX,
            amount > 0,
            0 <= i <= n,
            remaining >= 0,
            remaining == (if amount - need_before(ms0, i as int) <= 0 {
                0
            } else {
                amount - need_before(ms0, i as int)
            }),
            total == total_amount(ms0.take(i as int)),
            forall|k: int| 0 <= k < i ==> (#[trigger] ms@[k])@ == after_deposit(ms0, amount as int)[k],
            forall|k: int| i <= k < n ==> (#[trigger] ms@[k])@ == ms0[k],
        decreases n - i,
    {
        proof {
            assert(ms0.take(i + 1).drop_last() =~= ms0.take(i as int));
            assert(ms0.take(i + 1).last() == ms0[i as int]);
            crate::state::lemma_total_amount_prefix_le(ms0, i + 1);
            lemma_need_before_monotone(ms0, i as int, i + 1);
        }
        let m_amount = ms[i].amount;
        let m_funded = ms[i].funded_amount;
        let needed = m_amount - m_funded;
        let to_add = if remaining >= needed {
            needed
        } else {
            remaining
        };
        ms[i].funded_amount = m_funded + to_add;
        remaining = remaining - to_add;
        total = total + m_amount;
        i = i + 1;
    }
    proof {
        assert(ms0.take(n as int) =~= ms0);
        assert(milestones_view(ms@) =~= after_deposit(ms0, amount as int));
    }
    total
}

impl Escrow {
    /// Deposits `amount` into contract `contract_id` from its client (who
    /// authorizes), spreading it over the milestones in order, and returns
    /// the token pull the host must perform.
    #[verifier::loop_isolation(false)]
    pub fn deposit_funds(&mut self, contract_id: u32, caller: Address, amount: i128) -> (r: Result<
        Transfer,
        Error,
    >)
        requires
            old(self).wf(),
        ensures
            final(self).wf(),
            failed_unchanged(
                r,
                deposit_error(old(self)@, contract_id, caller, amount),
                old(self)@,
                final(self)@,
            ),
            r matches Ok(t) ==> {
                &&& t == Transfer::ToEscrow {
                    token: old(self)@.settlement_token->Some_0,
                    from: caller,
                    amount,
                }
                &&& final(self)@ == old(self)@.with_rec(
                    contract_id,
                    deposited_record(old(self)@.rec(contract_id), amount),
                )
            },
    {
        self.pause_gate()?;
        let token = match self.settlement_token {
            Some(t) => t,
            None => return Err(Error::SettlementTokenNotConfigured),
        };
        if amount <= 0 {
            return Err(Error::InvalidDepositAmount);
        }
        let pos = match self.position(contract_id) {
            Some(p) => p,
            None => return Err(Error::ContractNotFound),
        };
        proof {
            assert(record_wf(self@.records[pos as int]));
        }
        if self.records[pos].finalization.is_some() {
            return Err(Error::AlreadyFinalized);
        }
        let contract = self.records[pos].contract;
        if caller != contract.client {
            return Err(Error::UnauthorizedRole);
        }
        match contract.status {
            ContractStatus::Created | ContractStatus::PartiallyFunded => {},
            _ => return Err(Error::InvalidState),
        }
        let new_funded = match contract.funded_amount.checked_add(amount) {
            Some(f) => f,
            None => return Err(Error::PotentialOverflow),
        };
        let required = milestones_total(&self.records[pos].milestones);
        if new_funded > required {
            return Err(Error::InvalidDepositAmount);
        }
        if let Some(params) = self.governed_params {
            if params.max_escrow_total_stroops > 0 && new_funded > params.max_escrow_total_stroops {
                return Err(Error::InvalidProtocolParameters);
            }
        }
        let ghost old_view = self@;
        let ghost old_records = self.records@;
        let ghost r0 = self@.records[pos as int];
        let mut ms: Vec<Milestone> = Vec::new();
        std::mem::swap(&mut ms, &mut self.records[pos].milestones);
        proof {
            assert(milestones_view(ms@) == r0.milestones);
            assert forall|k: int| 0 <= k < ms@.len() implies milestone_wf(#[trigger] ms@[k]@) by {
                assert(r0.milestones[k] == ms@[k]@);
            }
        }
        let total = distribute_deposit(&mut ms, amount);
        std::mem::swap(&mut ms, &mut self.records[pos].milestones);
        let status = if new_funded >= total {
            ContractStatus::Funded
        } else {
            ContractStatus::PartiallyFunded
        };
        self.records[pos].contract.funded_amount = new_funded;
        self.records[pos].contract.total_deposited = new_funded;
        self.records[pos].contract.status = status;
        proof {
            let ms0 = r0.milestones;
            let expected = deposited_record(r0, amount);
            assert(self.records@[pos as int]@ == expected);
            assert forall|k: int| 0 <= k < self.records@.len() && k != pos implies records_view(self.records@)[k] == old_view.records[k] by {
                assert(self.records@[k] == old_records[k]);
            }
            assert(self@.records =~= old_view.records.update(pos as int, expected));
            assert forall|k: int| 0 <= k < ms0.len() implies milestone_wf(#[trigger] expected.milestones[k]) by {
                assert(milestone_wf(ms0[k]));
            }
            assert(total_amount(expected.milestones) == total_amount(ms0)) by {
                crate::state::lemma_total_amount_same(expected.milestones, ms0);
            }
            let nn = ms0.len() as int;
            lemma_allocations_sum(ms0, amount as int, nn);
            lemma_need_before_is_shortfall(ms0, nn);
            assert(ms0.take(nn) =~= ms0);
            assert(after_deposit(ms0, amount as int).take(nn) =~= after_deposit(ms0, amount as int));
            assert(total_funded(expected.milestones) == expected.contract.funded_amount);
            assert(record_wf(expected));
        }
        Ok(Transfer::ToEscrow { token, from: caller, amount })
    }
}

} // verus!
