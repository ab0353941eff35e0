use vstd::prelude::*;

use crate::types::{Contract, ContractStatus, Error};

verus! {

/// Resolution selected by the assigned arbiter for a disputed escrow.
#[derive(Clone, Copy, Debug, PartialEq, Eq, Structural)]
pub enum DisputeResolution {
    /// Refund all remaining escrowed funds to the client.
    FullRefund,
    /// Refund 70% of the remaining balance to the client and release 30% to the freelancer.
    PartialRefund,
    /// Release all remaining escrowed funds to the freelancer.
    FullPayout,
    /// Apply a custom split of the remaining balance: (client, freelancer).
    Split(i128, i128),
}

/// The numeric code of a resolution, as reported in events.
pub open spec fn resolution_code(r: DisputeResolution) -> u32 {
    match r {
        DisputeResolution::FullRefund => 0,
        DisputeResolution::PartialRefund => 1,
        DisputeResolution::FullPayout => 2,
        DisputeResolution::Split(_, _) => 3,
    }
}

impl DisputeResolution {
    pub fn code(&self) -> (r: u32)
        ensures
            r == resolution_code(*self),
    {
        match self {
            DisputeResolution::FullRefund => 0,
            DisputeResolution::PartialRefund => 1,
            DisputeResolution::FullPayout => 2,
            DisputeResolution::Split(_, _) => 3,
        }
    }
}

/// Funds still held for a contract: funded minus released minus refunded.
pub open spec fn available_balance(c: Contract) -> int {
    c.funded_amount - c.released_amount - c.refunded_amount
}

/// The (client, freelancer) payouts a resolution assigns to the balance still
/// held for `c`, or the error it is refused with.
pub open spec fn payouts(c: Contract, r: DisputeResolution) -> Result<(i128, i128), Error> {
    let available = available_balance(c);
    if !(i128::MIN <= c.funded_amount - c.released_amount <= i128::MAX) || !(i128::MIN
        <= available <= i128::MAX) {
        Err(Error::AccountingInvariantViolated)
    } else if available < 0 {
        Err(Error::AccountingInvariantViolated)
    } else {
        match r {
            DisputeResolution::FullRefund => Ok((available as i128, 0i128)),
            DisputeResolution::PartialRefund => {
                if available * 30 > i128::MAX {
                    Err(Error::PotentialOverflow)
                } else {
                    let freelancer = (available * 30) / 100;
                    Ok(((available - freelancer) as i128, freelancer as i128))
                }
            },
            DisputeResolution::FullPayout => Ok((0i128, available as i128)),
            DisputeResolution::Split(client_amount, freelancer_amount) => {
                if client_amount < 0 || freelancer_amount < 0 {
                    Err(Error::InvalidDisputeSplit)
                } else if client_amount + freelancer_amount > i128::MAX {
                    Err(Error::PotentialOverflow)
                } else if client_amount + freelancer_amount != available {
                    Err(Error::InvalidDisputeSplit)
                } else {
                    Ok((client_amount, freelancer_amount))
                }
            },
        }
    }
}

/// Computes the (client, freelancer) payouts of a dispute resolution.
pub fn resolution_payouts(contract: &Contract, resolution: &DisputeResolution) -> (r: Result<
    (i128, i128),
    Error,
>)
    ensures
        r == payouts(*contract, *resolution),
{
    let available = match contract.funded_amount.checked_sub(contract.released_amount) {
        Some(v) => match v.checked_sub(contract.refunded_amount) {
            Some(w) => w,
            None => return Err(Error::AccountingInvariantViolated),
        },
        None => return Err(Error::AccountingInvariantViolated),
    };
    if available < 0 {
        return Err(Error::AccountingInvariantViolated);
    }
    match resolution {
        DisputeResolution::FullRefund => Ok((available, 0)),
        DisputeResolution::PartialRefund => {
            let freelancer_payout = match available.checked_mul(30) {
                Some(v) => match v.checked_div(100) {
                    Some(q) => q,
                    None => return Err(Error::PotentialOverflow),
                },
                None => return Err(Error::PotentialOverflow),
            };
            Ok((available - freelancer_payout, freelancer_payout))
        },
        DisputeResolution::FullPayout => Ok((0, available)),
        DisputeResolution::Split(client_amount, freelancer_amount) => {
            let client_amount = *client_amount;
            let freelancer_amount = *freelancer_amount;
            if client_amount < 0 || freelancer_amount < 0 {
                return Err(Error::InvalidDisputeSplit);
            }
            let total = match client_amount.checked_add(freelancer_amount) {
                Some(t) => t,
                None => return Err(Error::PotentialOverflow),
            };
            if total != available {
                return Err(Error::InvalidDisputeSplit);
            }
            Ok((client_amount, freelancer_amount))
        },
    }
}

/// The status a resolved contract ends in: `Refunded` when everything funded
/// went back to the client, `Completed` otherwise.
pub open spec fn status_after_resolution(c: Contract) -> ContractStatus {
    if c.refunded_amount == c.funded_amount {
        ContractStatus::Refunded
    } else {
        ContractStatus::Completed
    }
}

pub fn final_status_after_resolution(contract: &Contract) -> (r: ContractStatus)
    ensures
        r == status_after_resolution(*contract),
{
    if contract.refunded_amount == contract.funded_amount {
        ContractStatus::Refunded
    } else {
        ContractStatus::Completed
    }
}

/// Any accepted resolution pays out exactly the balance still held, and
/// neither side receives a negative amount.
pub proof fn lemma_payouts_conserve_balance(c: Contract, r: DisputeResolution)
    requires
        payouts(c, r) is Ok,
    ensures
        ({
            let (client, freelancer) = payouts(c, r)->Ok_0;
            &&& client >= 0
            &&& freelancer >= 0
            &&& client + freelancer == available_balance(c)
        }),
{
    let available = available_balance(c);
    if r is PartialRefund {
        assert(0 <= (available * 30) / 100 <= available) by (nonlinear_arith)
            requires
                available >= 0,
        ;
    }
}

} // verus!
