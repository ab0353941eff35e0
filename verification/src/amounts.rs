use vstd::prelude::*;

use crate::types::Error;

verus! {

/// Basis-point denominator: 10 000 bps is 100 %.
pub const BPS_DENOMINATOR: i128 = 10_000;

/// `a + b` when it fits in an `i128`.
pub open spec fn checked_add_spec(a: i128, b: i128) -> Option<i128> {
    if i128::MIN <= a + b <= i128::MAX {
        Some((a + b) as i128)
    } else {
        None
    }
}

/// `a - b` when it fits in an `i128`.
pub open spec fn checked_sub_spec(a: i128, b: i128) -> Option<i128> {
    if i128::MIN <= a - b <= i128::MAX {
        Some((a - b) as i128)
    } else {
        None
    }
}

/// Returns `Some(a + b)`, or `None` on overflow.
pub fn safe_add_amounts(a: i128, b: i128) -> (r: Option<i128>)
    ensures
        r == checked_add_spec(a, b),
{
    a.checked_add(b)
}

/// Returns `Some(a - b)`, or `None` on overflow.
pub fn safe_subtract_amounts(a: i128, b: i128) -> (r: Option<i128>)
    ensures
        r == checked_sub_spec(a, b),
{
    a.checked_sub(b)
}

/// Quotient of `x` by the positive `d`, rounded toward zero as Rust's `/` does.
pub open spec fn div_toward_zero(x: int, d: int) -> int
    recommends
        d > 0,
{
    if x >= 0 {
        x / d
    } else {
        -((-x) / d)
    }
}

/// The protocol fee on `amount` at `fee_bps` basis points: the product
/// divided by 10 000 and rounded toward zero, or `None` where the product
/// overflows an `i128`.
pub open spec fn protocol_fee(amount: i128, fee_bps: u32) -> Option<i128> {
    let p = amount * fee_bps;
    if i128::MIN <= p <= i128::MAX {
        Some(div_toward_zero(p, 10_000) as i128)
    } else {
        None
    }
}

/// Computes the protocol fee on `amount` at `fee_bps` basis points; refuses
/// with `PotentialOverflow` when `amount * fee_bps` does not fit an `i128`.
pub fn calculate_protocol_fee(amount: i128, fee_bps: u32) -> (r: Result<i128, Error>)
    ensures
        r == (match protocol_fee(amount, fee_bps) {
            Some(f) => Ok(f),
            None => Err(Error::PotentialOverflow),
        }),
{
    let fee_bps_i128 = fee_bps as i128;
    match amount.checked_mul(fee_bps_i128) {
        Some(v) => match v.checked_div(BPS_DENOMINATOR) {
            Some(q) => Ok(q),
            None => Err(Error::PotentialOverflow),
        },
        None => Err(Error::PotentialOverflow),
    }
}

/// The fee on a non-negative amount, where it is defined, is not negative;
/// with a rate of at most 100 % it does not exceed the amount either.
pub proof fn lemma_fee_bounded(amount: i128, fee_bps: u32)
    requires
        amount >= 0,
    ensures
        protocol_fee(amount, fee_bps) matches Some(f) ==> 0 <= f,
        fee_bps <= 10_000 ==> (protocol_fee(amount, fee_bps) matches Some(f) ==> f <= amount),
{
    let p = amount * fee_bps;
    assert(0 <= p) by (nonlinear_arith)
        requires
            amount >= 0,
            fee_bps >= 0,
            p == amount * fee_bps,
    ;
    if fee_bps <= 10_000 {
        assert(p <= amount * 10_000) by (nonlinear_arith)
            requires
                amount >= 0,
                fee_bps <= 10_000,
                p == amount * fee_bps,
        ;
    }
    if i128::MIN <= p <= i128::MAX {
        assert(0 <= p / 10_000) by (nonlinear_arith)
            requires
                0 <= p,
        ;
        if fee_bps <= 10_000 {
            assert(p / 10_000 <= amount) by (nonlinear_arith)
                requires
                    0 <= p <= amount * 10_000,
            ;
        }
    }
}

} // verus!
