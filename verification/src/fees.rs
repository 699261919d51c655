//! The fee-rate curve of a custody: fixed, linear in utilization, or kinked at
//! an optimal utilization.

use vstd::prelude::*;
use crate::error::ErrorCode;
use crate::math::{BPS_SCALE, checked_diff, checked_mul_div, checked_sum, min_u64, or_overflow};
use crate::state::{Custody, Fees, FeesMode};

verus! {

/// Locked funds as a share of owned funds, in basis points; zero while the
/// custody owns nothing. `None` where `locked * 10000` leaves 64 bits.
pub open spec fn utilization_bps(locked: u64, owned: u64) -> Option<u64> {
    if owned == 0 {
        Some(0)
    } else if locked * BPS_SCALE > u64::MAX {
        None
    } else {
        Some((locked * BPS_SCALE / (owned as int)) as u64)
    }
}

/// The linear curve: `base_rate + utilization * utilization_mult / 10000`,
/// capped at `fee_max`. `None` where a step leaves 64 bits.
pub open spec fn linear_fee(
    base_rate: u64,
    utilization: u64,
    utilization_mult: u64,
    fee_max: u64,
) -> Option<u64> {
    let extra = utilization * utilization_mult / (BPS_SCALE as int);
    if utilization * utilization_mult > u64::MAX || base_rate + extra > u64::MAX {
        None
    } else if base_rate + extra <= fee_max {
        Some((base_rate + extra) as u64)
    } else {
        Some(fee_max)
    }
}

/// The lower arm of the kinked curve, for `utilization <= optimal`: from
/// `base_rate` towards `base_rate + fee_optimal` in proportion to
/// `utilization / optimal`, capped at `fee_max`.
pub open spec fn optimal_fee_below(
    base_rate: u64,
    utilization: u64,
    optimal: u64,
    fee_optimal: u64,
    fee_max: u64,
) -> Option<u64> {
    let ratio = utilization * BPS_SCALE / (optimal as int);
    let fee = base_rate + fee_optimal * ratio / (BPS_SCALE as int);
    if optimal == 0 || utilization * BPS_SCALE > u64::MAX || fee_optimal * ratio > u64::MAX || fee
        > u64::MAX {
        None
    } else if fee <= fee_max {
        Some(fee as u64)
    } else {
        Some(fee_max)
    }
}

/// The upper arm of the kinked curve, for `utilization > optimal`: from
/// `fee_optimal` towards `fee_max` in proportion to the utilization above the
/// optimum over the headroom `10000 - optimal`, capped at `fee_max`.
pub open spec fn optimal_fee_above(
    utilization: u64,
    optimal: u64,
    fee_optimal: u64,
    fee_max: u64,
) -> Option<u64> {
    let excess = utilization - optimal;
    let headroom = BPS_SCALE - optimal;
    let ratio = excess * BPS_SCALE / headroom;
    let fee = fee_optimal + (fee_max - fee_optimal) * ratio / (BPS_SCALE as int);
    if headroom <= 0 || excess * BPS_SCALE > u64::MAX || fee_max < fee_optimal || (fee_max
        - fee_optimal) * ratio > u64::MAX || fee > u64::MAX {
        None
    } else if fee <= fee_max {
        Some(fee as u64)
    } else {
        Some(fee_max)
    }
}

/// The kinked curve.
pub open spec fn optimal_fee(
    base_rate: u64,
    utilization: u64,
    optimal: u64,
    fee_optimal: u64,
    fee_max: u64,
) -> Option<u64> {
    if utilization <= optimal {
        optimal_fee_below(base_rate, utilization, optimal, fee_optimal, fee_max)
    } else {
        optimal_fee_above(utilization, optimal, fee_optimal, fee_max)
    }
}

/// The fee rate at a given utilization. `optimal` is the custody's optimal
/// utilization, which only the kinked curve reads.
pub open spec fn fee_rate_at(
    mode: FeesMode,
    base_rate: u64,
    utilization: u64,
    fees: Fees,
    optimal: u64,
) -> Option<u64> {
    match mode {
        FeesMode::Fixed => Some(base_rate),
        FeesMode::Linear => linear_fee(base_rate, utilization, fees.utilization_mult, fees.fee_max),
        FeesMode::Optimal => optimal_fee(
            base_rate,
            utilization,
            optimal,
            fees.fee_optimal,
            fees.fee_max,
        ),
    }
}

/// The fee rate of a custody in its present state: the base rate on the
/// fixed curve; on the other curves the base rate, capped at `fee_max`, while
/// the custody owns nothing, and the curve at the custody's utilization once
/// it does.
pub open spec fn fee_rate(mode: FeesMode, base_rate: u64, custody: Custody) -> Option<u64> {
    match mode {
        FeesMode::Fixed => Some(base_rate),
        _ => if custody.assets.owned == 0 {
            Some(min_u64(base_rate, custody.fees.fee_max))
        } else {
            match utilization_bps(custody.assets.locked, custody.assets.owned) {
                None => None,
                Some(u) => fee_rate_at(
                    mode,
                    base_rate,
                    u,
                    custody.fees,
                    custody.borrow_rate.optimal_utilization,
                ),
            }
        },
    }
}

/// Computes the custody's utilization in basis points.
pub fn utilization(locked: u64, owned: u64) -> (r: Result<u64, ErrorCode>)
    ensures
        r == or_overflow(utilization_bps(locked, owned)),
{
    if owned == 0 {
        Ok(0)
    } else {
        checked_mul_div(locked, BPS_SCALE, owned)
    }
}

/// Evaluates the fee curve of `mode` at `utilization`.
pub fn fee_rate_at_utilization(
    mode: FeesMode,
    base_rate: u64,
    utilization: u64,
    fees: &Fees,
    optimal: u64,
) -> (r: Result<u64, ErrorCode>)
    ensures
        r == or_overflow(fee_rate_at(mode, base_rate, utilization, *fees, optimal)),
{
    match mode {
        FeesMode::Fixed => Ok(base_rate),
        FeesMode::Linear => {
            let extra = checked_mul_div(utilization, fees.utilization_mult, BPS_SCALE)?;
            let total = checked_sum(base_rate, extra)?;
            Ok(if total <= fees.fee_max { total } else { fees.fee_max })
        },
        FeesMode::Optimal => {
            let fee = if utilization <= optimal {
                let ratio = checked_mul_div(utilization, BPS_SCALE, optimal)?;
                let extra = checked_mul_div(fees.fee_optimal, ratio, BPS_SCALE)?;
                checked_sum(base_rate, extra)?
            } else {
                let excess = checked_diff(utilization, optimal)?;
                let headroom = checked_diff(BPS_SCALE, optimal)?;
                let ratio = checked_mul_div(excess, BPS_SCALE, headroom)?;
                let span = checked_diff(fees.fee_max, fees.fee_optimal)?;
                let extra = checked_mul_div(span, ratio, BPS_SCALE)?;
                checked_sum(fees.fee_optimal, extra)?
            };
            Ok(if fee <= fees.fee_max { fee } else { fees.fee_max })
        },
    }
}

/// The fee rate, in basis points, that the custody charges at its present
/// utilization. The trade's size does not enter.
pub fn calculate_fee_rate(mode: FeesMode, base_rate: u64, custody: &Custody, _size_usd: u64) -> (r:
    Result<u64, ErrorCode>)
    ensures
        r == or_overflow(fee_rate(mode, base_rate, *custody)),
{
    match mode {
        FeesMode::Fixed => Ok(base_rate),
        _ => {
            if custody.assets.owned == 0 {
                return Ok(
                    if base_rate <= custody.fees.fee_max {
                        base_rate
                    } else {
                        custody.fees.fee_max
                    },
                );
            }
            let u = utilization(custody.assets.locked, custody.assets.owned)?;
            fee_rate_at_utilization(
                mode,
                base_rate,
                u,
                &custody.fees,
                custody.borrow_rate.optimal_utilization,
            )
        },
    }
}

/// Whatever a custody holds, its fee on the linear and on the kinked curve
/// does not exceed `fee_max`.
pub proof fn lemma_custody_fee_capped(mode: FeesMode, base_rate: u64, custody: Custody)
    requires
        mode != FeesMode::Fixed,
        fee_rate(mode, base_rate, custody) is Some,
    ensures
        fee_rate(mode, base_rate, custody)->0 <= custody.fees.fee_max,
{
}

/// On the linear and the kinked curve no fee exceeds `fee_max`.
pub proof fn lemma_fee_capped(
    mode: FeesMode,
    base_rate: u64,
    utilization: u64,
    fees: Fees,
    optimal: u64,
)
    requires
        mode != FeesMode::Fixed,
        fee_rate_at(mode, base_rate, utilization, fees, optimal) is Some,
    ensures
        fee_rate_at(mode, base_rate, utilization, fees, optimal)->0 <= fees.fee_max,
{
}

/// The linear fee does not fall when utilization rises, and where it is
/// defined at the higher utilization it is defined at the lower one.
pub proof fn lemma_linear_fee_monotone(
    base_rate: u64,
    u1: u64,
    u2: u64,
    utilization_mult: u64,
    fee_max: u64,
)
    requires
        u1 <= u2,
        linear_fee(base_rate, u2, utilization_mult, fee_max) is Some,
    ensures
        linear_fee(base_rate, u1, utilization_mult, fee_max) is Some,
        linear_fee(base_rate, u1, utilization_mult, fee_max)->0 <= linear_fee(
            base_rate,
            u2,
            utilization_mult,
            fee_max,
        )->0,
{
    assert(u1 * utilization_mult <= u2 * utilization_mult) by (nonlinear_arith)
        requires
            u1 <= u2,
    ;
    crate::math::lemma_mul_div_monotone(u1, u2, utilization_mult, BPS_SCALE);
}

/// On either arm of the kinked curve the fee does not fall when utilization
/// rises.
pub proof fn lemma_optimal_fee_monotone_on_arm(
    base_rate: u64,
    u1: u64,
    u2: u64,
    optimal: u64,
    fee_optimal: u64,
    fee_max: u64,
)
    requires
        u1 <= u2,
        u2 <= optimal || optimal < u1,
        optimal_fee(base_rate, u2, optimal, fee_optimal, fee_max) is Some,
    ensures
        optimal_fee(base_rate, u1, optimal, fee_optimal, fee_max) is Some,
        optimal_fee(base_rate, u1, optimal, fee_optimal, fee_max)->0 <= optimal_fee(
            base_rate,
            u2,
            optimal,
            fee_optimal,
            fee_max,
        )->0,
{
    if u2 <= optimal {
        let r1 = u1 * BPS_SCALE / (optimal as int);
        let r2 = u2 * BPS_SCALE / (optimal as int);
        crate::math::lemma_mul_div_monotone(u1, u2, BPS_SCALE, optimal);
        assert(0 <= r1 <= r2);
        assert(fee_optimal * r1 <= fee_optimal * r2) by (nonlinear_arith)
            requires
                0 <= r1 <= r2,
        ;
        assert(0 <= fee_optimal * r1) by (nonlinear_arith)
            requires
                0 <= r1,
        ;
        vstd::arithmetic::div_mod::lemma_div_is_ordered(
            fee_optimal * r1,
            fee_optimal * r2,
            BPS_SCALE as int,
        );
    } else {
        let headroom = BPS_SCALE - optimal;
        let e1 = (u1 - optimal) as u64;
        let e2 = (u2 - optimal) as u64;
        let span = (fee_max - fee_optimal) as u64;
        let r1 = e1 * BPS_SCALE / headroom;
        let r2 = e2 * BPS_SCALE / headroom;
        crate::math::lemma_mul_div_monotone(e1, e2, BPS_SCALE, headroom as u64);
        assert(0 <= r1 <= r2);
        assert(span * r1 <= span * r2) by (nonlinear_arith)
            requires
                0 <= r1 <= r2,
        ;
        assert(0 <= span * r1) by (nonlinear_arith)
            requires
                0 <= r1,
        ;
        vstd::arithmetic::div_mod::lemma_div_is_ordered(span * r1, span * r2, BPS_SCALE as int);
    }
}

/// Across the kink of the curve the fee falls by no more than `base_rate`:
/// the lower arm ends at `base_rate + fee_optimal`, the upper arm starts at
/// `fee_optimal`.
pub proof fn lemma_optimal_fee_drop_bounded(
    base_rate: u64,
    u1: u64,
    u2: u64,
    optimal: u64,
    fee_optimal: u64,
    fee_max: u64,
)
    requires
        u1 <= optimal < u2,
        optimal_fee(base_rate, u1, optimal, fee_optimal, fee_max) is Some,
        optimal_fee(base_rate, u2, optimal, fee_optimal, fee_max) is Some,
    ensures
        optimal_fee(base_rate, u1, optimal, fee_optimal, fee_max)->0 <= optimal_fee(
            base_rate,
            u2,
            optimal,
            fee_optimal,
            fee_max,
        )->0 + base_rate,
{
    let r1 = u1 * BPS_SCALE / (optimal as int);
    assert(u1 * BPS_SCALE <= optimal * BPS_SCALE);
    vstd::arithmetic::div_mod::lemma_div_is_ordered(
        u1 * BPS_SCALE,
        optimal * BPS_SCALE,
        optimal as int,
    );
    vstd::arithmetic::div_mod::lemma_div_multiples_vanish(BPS_SCALE as int, optimal as int);
    assert(optimal * BPS_SCALE == BPS_SCALE * optimal) by (nonlinear_arith);
    assert(0 <= r1 <= BPS_SCALE);
    assert(fee_optimal * r1 <= fee_optimal * BPS_SCALE) by (nonlinear_arith)
        requires
            0 <= r1 <= BPS_SCALE,
    ;
    assert(fee_optimal * r1 / (BPS_SCALE as int) <= fee_optimal);
    let e2 = (u2 - optimal) as u64;
    let span = (fee_max - fee_optimal) as u64;
    let r2 = e2 * BPS_SCALE / (BPS_SCALE - optimal);
    assert(0 <= r2) by (nonlinear_arith)
        requires
            r2 == e2 * BPS_SCALE / (BPS_SCALE - optimal),
            BPS_SCALE - optimal > 0,
            e2 >= 0,
    ;
    assert(0 <= span * r2) by (nonlinear_arith)
        requires
            0 <= r2,
    ;
}

/// The fee does not fall when utilization rises: on the linear curve always,
/// on the kinked curve wherever the two utilizations lie on one arm or the
/// base rate is zero. No fee on either curve exceeds `fee_max`.
pub proof fn lemma_fee_curve_monotone(
    mode: FeesMode,
    base_rate: u64,
    u1: u64,
    u2: u64,
    fees: Fees,
    optimal: u64,
)
    requires
        mode != FeesMode::Fixed,
        u1 <= u2,
        mode == FeesMode::Optimal && u1 <= optimal < u2 ==> base_rate == 0,
        fee_rate_at(mode, base_rate, u1, fees, optimal) is Some,
        fee_rate_at(mode, base_rate, u2, fees, optimal) is Some,
    ensures
        fee_rate_at(mode, base_rate, u1, fees, optimal)->0 <= fee_rate_at(
            mode,
            base_rate,
            u2,
            fees,
            optimal,
        )->0 <= fees.fee_max,
{
    match mode {
        FeesMode::Fixed => {},
        FeesMode::Linear => {
            lemma_linear_fee_monotone(base_rate, u1, u2, fees.utilization_mult, fees.fee_max);
        },
        FeesMode::Optimal => {
            if u1 <= optimal < u2 {
                lemma_optimal_fee_drop_bounded(
                    base_rate,
                    u1,
                    u2,
                    optimal,
                    fees.fee_optimal,
                    fees.fee_max,
                );
            } else {
                lemma_optimal_fee_monotone_on_arm(
                    base_rate,
                    u1,
                    u2,
                    optimal,
                    fees.fee_optimal,
                    fees.fee_max,
                );
            }
        },
    }
}

} // verus!
