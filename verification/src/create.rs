//! Creating escrow contracts.
use vstd::prelude::*;

use crate::state::{
    failed_unchanged, lemma_sum_prefix_le, lemma_total_amount_matches, milestones_view,
    pause_error, record_wf, records_view, sum_amounts, total_amount, ContractRecord, Escrow,
    EscrowView, RecordView,
};
use crate::types::{
    Address, Contract, ContractStatus, Error, Milestone, MilestoneView, ReleaseAuthorization,
    StoredApprovals,
};

verus! {

/// Authorization modes in which an arbiter must be assigned.
pub open spec fn arbiter_required(mode: ReleaseAuthorization) -> bool {
    mode is ArbiterOnly || mode is ClientAndArbiter
}

/// The first check that `create_contract` fails, if any.
pub open spec fn create_contract_error(
    v: EscrowView,
    client: Address,
    freelancer: Address,
    arbiter: Option<Address>,
    amounts: Seq<i128>,
    mode: ReleaseAuthorization,
) -> Option<Error> {
    if pause_error(v) is Some {
        pause_error(v)
    } else if client == freelancer {
        Some(Error::InvalidParticipant)
    } else if arbiter_required(mode) && arbiter is None {
        Some(Error::MissingArbiter)
    } else if arbiter matches Some(a) && (a == client || a == freelancer) {
        Some(Error::InvalidArbiter)
    } else if amounts.len() == 0 {
        Some(Error::EmptyMilestones)
    } else if exists|i: int| 0 <= i < amounts.len() && #[trigger] amounts[i] <= 0 {
        Some(Error::InvalidMilestoneAmount)
    } else if sum_amounts(amounts) > i128::MAX {
        Some(Error::PotentialOverflow)
    } else if v.governed_params matches Some(p) && p.max_escrow_total_stroops > 0
        && sum_amounts(amounts) > p.max_escrow_total_stroops {
        Some(Error::EscrowCapExceeded)
    } else if v.next_contract_id <= v.records.len() {
        Some(Error::ContractIdCollision)
    } else if v.next_contract_id == u32::MAX {
        Some(Error::ContractIdOverflow)
    } else {
        None
    }
}

/// A fresh milestone for `amount`.
pub open spec fn new_milestone(amount: i128) -> MilestoneView {
    MilestoneView {
        amount,
        funded_amount: 0,
        released: false,
        refunded: false,
        work_evidence: None,
        refunded_amount: 0,
    }
}

/// The record a successful `create_contract` stores.
pub open spec fn new_record(
    client: Address,
    freelancer: Address,
    arbiter: Option<Address>,
    amounts: Seq<i128>,
    mode: ReleaseAuthorization,
) -> RecordView {
    RecordView {
        contract: Contract {
            client,
            freelancer,
            arbiter,
            status: ContractStatus::Created,
            total_deposited: 0,
            funded_amount: 0,
            released_amount: 0,
            refunded_amount: 0,
            release_authorization: mode,
            reputation_issued: false,
        },
        milestones: Seq::new(amounts.len(), |i: int| new_milestone(amounts[i])),
        approvals: Seq::new(amounts.len(), |i: int| None::<StoredApprovals>),
        comment: None,
        migration: None,
        finalization: None,
    }
}

/// The state after a contract is created: its record is appended under the
/// next id, and the id counter moves on.
pub open spec fn created_state(
    v: EscrowView,
    client: Address,
    freelancer: Address,
    arbiter: Option<Address>,
    amounts: Seq<i128>,
    mode: ReleaseAuthorization,
) -> EscrowView {
    EscrowView {
        records: v.records.push(new_record(client, freelancer, arbiter, amounts, mode)),
        next_contract_id: (v.next_contract_id + 1) as u32,
        ..v
    }
}

impl Escrow {
    /// Creates a contract between `client` and `freelancer` with one
    /// milestone per amount and returns its id (authorized by the client).
    #[verifier::loop_isolation(false)]
    pub fn create_contract(
        &mut self,
        client: Address,
        freelancer: Address,
        arbiter: Option<Address>,
        milestones: Vec<i128>,
        release_authorization: ReleaseAuthorization,
    ) -> (r: Result<u32, Error>)
        requires
            old(self).wf(),
            milestones@.len() <= u32::MAX,
        ensures
            final(self).wf(),
            failed_unchanged(
                r,
                create_contract_error(
                    old(self)@,
                    client,
                    freelancer,
                    arbiter,
                    milestones@,
                    release_authorization,
                ),
                old(self)@,
                final(self)@,
            ),
            r matches Ok(id) ==> {
                &&& id == old(self)@.next_contract_id
                &&& final(self)@ == created_state(
                    old(self)@,
                    client,
                    freelancer,
                    arbiter,
                    milestones@,
                    release_authorization,
                )
            },
    {
        self.pause_gate()?;
        if client == freelancer {
            return Err(Error::InvalidParticipant);
        }
        match release_authorization {
            ReleaseAuthorization::ArbiterOnly | ReleaseAuthorization::ClientAndArbiter => {
                if arbiter.is_none() {
                    return Err(Error::MissingArbiter);
                }
            },
            _ => {},
        }
        if let Some(arb) = arbiter {
            if arb == client || arb == freelancer {
                return Err(Error::InvalidArbiter);
            }
        }
        if milestones.len() == 0 {
            return Err(Error::EmptyMilestones);
        }
        let n = milestones.len();
        let mut i: usize = 0;
        while i < n
            invariant
                n == milestones@.len(),
                i <= n,
                forall|k: int| 0 <= k < i ==> milestones@[k] > 0,
            decreases n - i,
        {
            if milestones[i] <= 0 {
                return Err(Error::InvalidMilestoneAmount);
            }
            i = i + 1;
        }
        let mut total: i128 = 0;
        let mut i: usize = 0;
        while i < n
            invariant
                n == milestones@.len(),
                i <= n,
                forall|k: int| 0 <= k < n ==> milestones@[k] > 0,
                total == sum_amounts(milestones@.take(i as int)),
            decreases n - i,
        {
            proof {
                assert(milestones@.take(i + 1).drop_last() =~= milestones@.take(i as int));
                lemma_sum_prefix_le(milestones@, i + 1);
            }
            total = match total.checked_add(milestones[i]) {
                Some(t) => t,
                None => return Err(Error::PotentialOverflow),
            };
            i = i + 1;
        }
        proof {
            assert(milestones@.take(n as int) =~= milestones@);
        }
        if let Some(params) = self.governed_params {
            if params.max_escrow_total_stroops > 0 && total > params.max_escrow_total_stroops {
                return Err(Error::EscrowCapExceeded);
            }
        }
        let id = self.next_contract_id;
        if (id as usize) <= self.records.len() {
            return Err(Error::ContractIdCollision);
        }
        if id == u32::MAX {
            return Err(Error::ContractIdOverflow);
        }
        let mut ms: Vec<Milestone> = Vec::new();
        let mut approvals: Vec<Option<StoredApprovals>> = Vec::new();
        let mut i: usize = 0;
        while i < n
            invariant
                n == milestones@.len(),
                i <= n,
                ms@.len() == i,
                approvals@.len() == i,
                forall|k: int| 0 <= k < i ==> (#[trigger] ms@[k])@ == new_milestone(milestones@[k]),
                forall|k: int| 0 <= k < i ==> (#[trigger] approvals@[k]) is None,
            decreases n - i,
        {
            ms.push(
                Milestone {
                    amount: milestones[i],
                    funded_amount: 0,
                    released: false,
                    refunded: false,
                    work_evidence: None,
                    refunded_amount: 0,
                },
            );
            approvals.push(None);
            i = i + 1;
        }
        let record = ContractRecord {
            contract: Contract {
                client,
                freelancer,
                arbiter,
                status: ContractStatus::Created,
                total_deposited: 0,
                funded_amount: 0,
                released_amount: 0,
                refunded_amount: 0,
                release_authorization,
                reputation_issued: false,
            },
            milestones: ms,
            approvals,
            comment: None,
            migration: None,
            finalization: None,
        };
        let ghost expected = new_record(
            client,
            freelancer,
            arbiter,
            milestones@,
            release_authorization,
        );
        proof {
            assert(record@.milestones =~= expected.milestones);
            assert(record@.approvals =~= expected.approvals);
            lemma_total_amount_matches(expected.milestones, milestones@);
            crate::state::lemma_total_funded_zero(expected.milestones);
            assert(record_wf(record@));
        }
        let ghost old_records = self.records@;
        self.records.push(record);
        self.next_contract_id = id + 1;
        proof {
            assert(records_view(self.records@) =~= records_view(old_records).push(expected));
        }
        Ok(id)
    }
}

} // verus!
