//! Checked fixed-point arithmetic on 64-bit amounts and basis points.

use vstd::prelude::*;
use crate::error::ErrorCode;

verus! {

/// One whole, in basis points.
pub const BPS_SCALE: u64 = 10000;

/// `a * b / c`, truncated, or `None` where the product leaves 64 bits or `c`
/// is zero.
pub open spec fn mul_div(a: u64, b: u64, c: u64) -> Option<u64> {
    if a * b > u64::MAX || c == 0 {
        None
    } else {
        Some((a * b / (c as int)) as u64)
    }
}

/// `a + b`, or `None` where the sum leaves 64 bits.
pub open spec fn add_u64(a: u64, b: u64) -> Option<u64> {
    if a + b > u64::MAX {
        None
    } else {
        Some((a + b) as u64)
    }
}

/// `a - b`, or `None` where `b` is the larger.
pub open spec fn sub_u64(a: u64, b: u64) -> Option<u64> {
    if a < b {
        None
    } else {
        Some((a - b) as u64)
    }
}

/// `amount * rate_bps / 10000`: the share of `amount` that a rate in basis
/// points stands for.
pub open spec fn bps_of(amount: u64, rate_bps: u64) -> Option<u64> {
    mul_div(amount, rate_bps, BPS_SCALE)
}

/// The smaller of two amounts.
pub open spec fn min_u64(a: u64, b: u64) -> u64 {
    if a <= b {
        a
    } else {
        b
    }
}

/// An overflowing step read as the error it is reported with.
pub open spec fn or_overflow(v: Option<u64>) -> Result<u64, ErrorCode> {
    match v {
        Some(x) => Ok(x),
        None => Err(ErrorCode::MathOverflow),
    }
}

/// Computes `a * b / c` with every step checked.
pub fn checked_mul_div(a: u64, b: u64, c: u64) -> (r: Result<u64, ErrorCode>)
    ensures
        r == or_overflow(mul_div(a, b, c)),
{
    match a.checked_mul(b) {
        None => Err(ErrorCode::MathOverflow),
        Some(p) => match p.checked_div(c) {
            None => Err(ErrorCode::MathOverflow),
            Some(q) => Ok(q),
        },
    }
}

/// Computes `a + b`, checked.
pub fn checked_sum(a: u64, b: u64) -> (r: Result<u64, ErrorCode>)
    ensures
        r == or_overflow(add_u64(a, b)),
{
    match a.checked_add(b) {
        None => Err(ErrorCode::MathOverflow),
        Some(s) => Ok(s),
    }
}

/// Computes `a - b`, checked.
pub fn checked_diff(a: u64, b: u64) -> (r: Result<u64, ErrorCode>)
    ensures
        r == or_overflow(sub_u64(a, b)),
{
    match a.checked_sub(b) {
        None => Err(ErrorCode::MathOverflow),
        Some(d) => Ok(d),
    }
}

/// A truncated quotient does not shrink when the product under it grows.
pub proof fn lemma_mul_div_monotone(a1: u64, a2: u64, b: u64, c: u64)
    requires
        a1 <= a2,
        c > 0,
    ensures
        a1 * b / (c as int) <= a2 * b / (c as int),
{
    assert(a1 * b <= a2 * b) by (nonlinear_arith)
        requires
            a1 <= a2,
            b >= 0,
    ;
    vstd::arithmetic::div_mod::lemma_div_is_ordered(a1 * b, a2 * b, c as int);
}

} // verus!
