//! Reputation issued by clients for completed contracts.
use vstd::prelude::*;

use crate::state::{
    credit_of, failed_unchanged, pause_error, record_wf, records_view, Escrow, EscrowView,
    RecordView,
};
use crate::types::{Address, Contract, ContractStatus, Error, Reputation};

verus! {

/// Longest accepted reputation comment, in bytes.
pub const MAX_COMMENT_BYTES: usize = 200;

/// The reputation of `a` (all zero when none was ever recorded).
pub open spec fn reputation_of(v: EscrowView, a: Address) -> Reputation {
    if v.reputations.contains_key(a) {
        v.reputations[a]
    } else {
        Reputation { completed_contracts: 0, total_rating: 0, last_rating: 0 }
    }
}

/// The first check that `issue_reputation` fails, if any.
pub open spec fn issue_reputation_error(
    v: EscrowView,
    contract_id: u32,
    caller: Address,
    rating: u32,
    comment: Seq<u8>,
) -> Option<Error> {
    let c = v.rec(contract_id).contract;
    let rep = reputation_of(v, c.freelancer);
    if pause_error(v) is Some {
        pause_error(v)
    } else if !v.has_contract(contract_id) {
        Some(Error::ContractNotFound)
    } else if v.rec(contract_id).finalization is Some {
        Some(Error::AlreadyFinalized)
    } else if caller != c.client {
        Some(Error::UnauthorizedRole)
    } else if rating < 1 || rating > 5 {
        Some(Error::InvalidRating)
    } else if comment.len() == 0 {
        Some(Error::EmptyComment)
    } else if comment.len() > MAX_COMMENT_BYTES {
        Some(Error::CommentTooLong)
    } else if !(c.status is Completed) {
        Some(Error::NotCompleted)
    } else if c.reputation_issued {
        Some(Error::ReputationAlreadyIssued)
    } else if c.client == c.freelancer {
        Some(Error::SelfRating)
    } else if credit_of(v, c.freelancer) <= 0 {
        Some(Error::InvalidState)
    } else if rep.completed_contracts + 1 > i128::MAX || rep.total_rating + rating > i128::MAX {
        Some(Error::PotentialOverflow)
    } else {
        None
    }
}

/// The state after the client rated contract `contract_id`.
pub open spec fn rated_state(v: EscrowView, contract_id: u32, rating: u32, comment: Seq<u8>) -> EscrowView {
    let r = v.rec(contract_id);
    let c = r.contract;
    let f = c.freelancer;
    let rep = reputation_of(v, f);
    let v2 = v.with_rec(
        contract_id,
        RecordView {
            contract: Contract { reputation_issued: true, ..c },
            comment: Some(comment),
            ..r
        },
    );
    EscrowView {
        credits: v.credits.insert(f, (credit_of(v, f) - 1) as i128),
        reputations: v.reputations.insert(
            f,
            Reputation {
                completed_contracts: (rep.completed_contracts + 1) as i128,
                total_rating: (rep.total_rating + rating) as i128,
                last_rating: rating as i128,
            },
        ),
        ..v2
    }
}

impl Escrow {
    fn reputation(&self, a: &Address) -> (r: Reputation)
        requires
            self.wf(),
        ensures
            r == reputation_of(self@, *a),
    {
        match self.reputations.get(a) {
            Some(rep) => rep,
            None => Reputation { completed_contracts: 0, total_rating: 0, last_rating: 0 },
        }
    }

    /// Lets the client rate the freelancer of a completed contract, once,
    /// with a rating from 1 to 5 and a comment of 1 to 200 bytes
    /// (client-authorized).
    pub fn issue_reputation(
        &mut self,
        contract_id: u32,
        caller: Address,
        rating: u32,
        comment: Vec<u8>,
    ) -> (r: Result<(), Error>)
        requires
            old(self).wf(),
        ensures
            final(self).wf(),
            failed_unchanged(
                r,
                issue_reputation_error(old(self)@, contract_id, caller, rating, comment@),
                old(self)@,
                final(self)@,
            ),
            r is Ok ==> final(self)@ == rated_state(old(self)@, contract_id, rating, comment@),
    {
        self.pause_gate()?;
        let pos = match self.position(contract_id) {
            Some(p) => p,
            None => return Err(Error::ContractNotFound),
        };
        proof {
            assert(record_wf(self@.records[pos as int]));
        }
        if self.records[pos].finalization.is_some() {
            return Err(Error::AlreadyFinalized);
        }
        let c = self.records[pos].contract;
        if caller != c.client {
            return Err(Error::UnauthorizedRole);
        }
        if rating < 1 || rating > 5 {
            return Err(Error::InvalidRating);
        }
        if comment.len() == 0 {
            return Err(Error::EmptyComment);
        }
        if comment.len() > MAX_COMMENT_BYTES {
            return Err(Error::CommentTooLong);
        }
        if c.status != ContractStatus::Completed {
            return Err(Error::NotCompleted);
        }
        if c.reputation_issued {
            return Err(Error::ReputationAlreadyIssued);
        }
        if c.client == c.freelancer {
            return Err(Error::SelfRating);
        }
        let f = c.freelancer;
        let credit = self.credit(&f);
        if credit <= 0 {
            return Err(Error::InvalidState);
        }
        let rep = self.reputation(&f);
        let completed = match rep.completed_contracts.checked_add(1) {
            Some(v) => v,
            None => return Err(Error::PotentialOverflow),
        };
        let total = match rep.total_rating.checked_add(rating as i128) {
            Some(v) => v,
            None => return Err(Error::PotentialOverflow),
        };
        let ghost old_view = self@;
        let ghost old_records = self.records@;
        self.records[pos].contract.reputation_issued = true;
        self.records[pos].comment = Some(comment);
        proof {
            let r0 = old_view.records[pos as int];
            let expected = RecordView {
                contract: Contract { reputation_issued: true, ..c },
                comment: Some(comment@),
                ..r0
            };
            assert(self.records@[pos as int]@ == expected);
            assert forall|k: int| 0 <= k < self.records@.len() && k != pos implies records_view(
                self.records@,
            )[k] == old_view.records[k] by {
                assert(self.records@[k] == old_records[k]);
            }
            assert(self@.records =~= old_view.records.update(pos as int, expected));
            assert(record_wf(expected));
        }
        self.set_credit(f, credit - 1);
        self.reputations.insert(
            f,
            Reputation { completed_contracts: completed, total_rating: total, last_rating: rating as i128 },
        );
        Ok(())
    }

    /// The comment written when reputation was issued for a contract.
    pub fn get_reputation_comment(&self, contract_id: u32) -> (r: Option<Vec<u8>>)
        ensures
            (match r {
                Some(v) => Some(v@),
                None => None,
            }) == (if self@.has_contract(contract_id) {
                self@.rec(contract_id).comment
            } else {
                None
            }),
    {
        match self.position(contract_id) {
            Some(p) => match &self.records[p].comment {
                Some(c) => Some(copy_bytes(c)),
                None => None,
            },
            None => None,
        }
    }

    /// The reputation recorded for `address`, if any.
    pub fn get_reputation(&self, address: Address) -> (r: Option<Reputation>)
        requires
            self.wf(),
        ensures
            r == (if self@.reputations.contains_key(address) {
                Some(self@.reputations[address])
            } else {
                None
            }),
    {
        self.reputations.get(&address)
    }

    /// The average rating of `address` scaled by 10 000, or `None` when it
    /// has no reputation, no completed contracts, or the arithmetic
    /// overflows.
    pub fn get_average_rating(&self, address: Address) -> (r: Option<i128>)
        requires
            self.wf(),
        ensures
            r == (if !self@.reputations.contains_key(address)
                || self@.reputations[address].completed_contracts == 0 {
                None
            } else {
                let rep = self@.reputations[address];
                match rep.total_rating.checked_mul(10_000) {
                    Some(scaled) => scaled.checked_div(rep.completed_contracts),
                    None => None,
                }
            }),
    {
        let rep = match self.reputations.get(&address) {
            Some(rep) => rep,
            None => return None,
        };
        if rep.completed_contracts == 0 {
            return None;
        }
        match rep.total_rating.checked_mul(10_000) {
            Some(scaled) => scaled.checked_div(rep.completed_contracts),
            None => None,
        }
    }

    /// The pending reputation credits of `address`.
    pub fn get_pending_reputation_credits(&self, address: Address) -> (r: i128)
        requires
            self.wf(),
        ensures
            r == credit_of(self@, address),
    {
        self.credit(&address)
    }
}

/// A copy of `v`.
pub fn copy_bytes(v: &Vec<u8>) -> (r: Vec<u8>)
    ensures
        r@ == v@,
{
    let mut r: Vec<u8> = Vec::new();
    let mut i: usize = 0;
    while i < v.len()
        invariant
            i <= v@.len(),
            r@ == v@.take(i as int),
        decreases v@.len() - i,
    {
        r.push(v[i]);
        i = i + 1;
        proof {
            assert(r@ =~= v@.take(i as int));
        }
    }
    proof {
        assert(v@.take(v@.len() as int) =~= v@);
    }
    r
}

} // verus!
