//! The margin engine: what a position is worth, whether it may be opened,
//! adjusted or liquidated, on amounts in the clear.
//!
//! Amounts are unsigned 64-bit USD values, profit and loss is signed 64-bit.
//! Every step is checked: a value that leaves its width is reported, never
//! wrapped.

use vstd::prelude::*;
use crate::error::ErrorCode;
use crate::math::{BPS_SCALE, checked_mul_div, mul_div};

verus! {

/// A position must hold one part of collateral in this many of size.
pub const MARGIN_DIVISOR: u64 = 20;

/// A liquidated position forfeits one part in this many of its value.
pub const PENALTY_DIVISOR: u64 = 10;

/// The side code of a long position.
pub const SIDE_LONG: u8 = 0;

/// The side code of a short position.
pub const SIDE_SHORT: u8 = 1;

pub struct PositionValueInput {
    pub size_usd: u64,
    pub collateral_usd: u64,
    pub entry_price: u64,
    pub current_price: u64,
    pub side: u8,
}

#[derive(Clone, Copy, Debug, PartialEq, Eq, Structural)]
pub struct PositionValueOutput {
    pub current_value: u64,
    pub pnl: i64,
    pub is_liquidatable: u8,
}

#[derive(Clone, Copy, Debug, PartialEq, Eq, Structural)]
pub struct ClosePositionOutput {
    pub realized_pnl: i64,
    pub final_balance: u64,
    pub can_close: u8,
}

#[derive(Clone, Copy, Debug, PartialEq, Eq, Structural)]
pub struct AddCollateralOutput {
    pub new_total_collateral: u64,
    pub new_leverage: u64,
}

#[derive(Clone, Copy, Debug, PartialEq, Eq, Structural)]
pub struct RemoveCollateralOutput {
    pub new_collateral: u64,
    pub removed_amount: u64,
    pub can_remove: u8,
    pub new_leverage: u64,
}

#[derive(Clone, Copy, Debug, PartialEq, Eq, Structural)]
pub struct LiquidateOutput {
    pub is_liquidatable: u8,
    pub remaining_collateral: u64,
    pub liquidation_penalty: u64,
}

/// Whether a number is a signed 64-bit value.
pub open spec fn fits_i64(x: int) -> bool {
    i64::MIN <= x <= i64::MAX
}

/// The quotient rounded towards zero, for a positive divisor.
pub open spec fn div_toward_zero(a: int, b: int) -> int
    recommends
        b > 0,
{
    if a >= 0 {
        a / b
    } else {
        -((-a) / b)
    }
}

/// How far the price has moved in the position's favour: up for a long
/// position, down for a short one.
pub open spec fn price_move(entry_price: u64, current_price: u64, side: u8) -> int {
    if side == SIDE_LONG {
        current_price - entry_price
    } else {
        entry_price - current_price
    }
}

/// Whether side and prices are such that profit and loss is defined: the side
/// is long or short, the entry price is not zero, and both prices are signed
/// 64-bit values.
pub open spec fn valid_quote(entry_price: u64, current_price: u64, side: u8) -> bool {
    side <= SIDE_SHORT && 0 < entry_price <= i64::MAX && current_price <= i64::MAX
}

/// Profit and loss: `size * price_move / entry_price`, rounded towards zero.
/// Invalid input where side or prices are out of range; overflow where the
/// size or the product is no signed 64-bit value.
pub open spec fn profit_and_loss(size_usd: u64, entry_price: u64, current_price: u64, side: u8)
    -> Result<i64, ErrorCode> {
    let product = size_usd * price_move(entry_price, current_price, side);
    if !valid_quote(entry_price, current_price, side) {
        Err(ErrorCode::InvalidInput)
    } else if size_usd > i64::MAX || !fits_i64(product) {
        Err(ErrorCode::MathOverflow)
    } else {
        Ok(div_toward_zero(product, entry_price as int) as i64)
    }
}

/// Collateral plus profit and loss, which may be negative. Overflow where
/// the collateral or the sum is no signed 64-bit value.
pub open spec fn signed_value(collateral_usd: u64, pnl: i64) -> Option<int> {
    if collateral_usd > i64::MAX || collateral_usd + pnl > i64::MAX {
        None
    } else {
        Some(collateral_usd + pnl)
    }
}

/// A signed value with everything under zero taken as zero.
pub open spec fn clamp_to_zero(value: int) -> u64
    recommends
        value <= u64::MAX,
{
    if value > 0 {
        value as u64
    } else {
        0
    }
}

/// The least value that a position of this size must keep: a twentieth of
/// the size.
pub open spec fn maintenance_threshold(size_usd: u64) -> u64 {
    size_usd / MARGIN_DIVISOR
}

/// One where the value is under the maintenance threshold, else zero.
pub open spec fn liquidatable_flag(current_value: u64, size_usd: u64) -> u8 {
    if current_value < maintenance_threshold(size_usd) {
        1
    } else {
        0
    }
}

/// A position's present value, its profit and loss, and whether it can be
/// liquidated.
pub open spec fn position_value(
    size_usd: u64,
    collateral_usd: u64,
    entry_price: u64,
    current_price: u64,
    side: u8,
) -> Result<PositionValueOutput, ErrorCode> {
    match profit_and_loss(size_usd, entry_price, current_price, side) {
        Err(e) => Err(e),
        Ok(pnl) => match signed_value(collateral_usd, pnl) {
            None => Err(ErrorCode::MathOverflow),
            Some(value) => Ok(
                PositionValueOutput {
                    current_value: clamp_to_zero(value),
                    pnl,
                    is_liquidatable: liquidatable_flag(clamp_to_zero(value), size_usd),
                },
            ),
        },
    }
}

/// What closing a position realizes: the profit and loss, the balance that
/// is left (never under zero), and whether anything is left.
pub open spec fn close_outcome(
    size_usd: u64,
    collateral_usd: u64,
    entry_price: u64,
    current_price: u64,
    side: u8,
) -> Result<ClosePositionOutput, ErrorCode> {
    match profit_and_loss(size_usd, entry_price, current_price, side) {
        Err(e) => Err(e),
        Ok(pnl) => match signed_value(collateral_usd, pnl) {
            None => Err(ErrorCode::MathOverflow),
            Some(value) => Ok(
                ClosePositionOutput {
                    realized_pnl: pnl,
                    final_balance: clamp_to_zero(value),
                    can_close: if value > 0 {
                        1
                    } else {
                        0
                    },
                },
            ),
        },
    }
}

/// What a liquidation leaves: where the value is under the threshold, a
/// tenth of it is the penalty and the rest remains; else the value remains
/// whole.
pub open spec fn liquidation_outcome(
    size_usd: u64,
    collateral_usd: u64,
    entry_price: u64,
    current_price: u64,
    side: u8,
) -> Result<LiquidateOutput, ErrorCode> {
    match position_value(size_usd, collateral_usd, entry_price, current_price, side) {
        Err(e) => Err(e),
        Ok(v) => if v.is_liquidatable == 1 {
            Ok(
                LiquidateOutput {
                    is_liquidatable: 1,
                    remaining_collateral: (v.current_value - v.current_value / PENALTY_DIVISOR) as u64,
                    liquidation_penalty: v.current_value / PENALTY_DIVISOR,
                },
            )
        } else {
            Ok(
                LiquidateOutput {
                    is_liquidatable: 0,
                    remaining_collateral: v.current_value,
                    liquidation_penalty: 0,
                },
            )
        },
    }
}

/// Size over collateral in basis points, zero where there is no collateral.
pub open spec fn leverage_or_zero(size_usd: u64, collateral_usd: u64) -> Option<u64> {
    if collateral_usd == 0 {
        Some(0)
    } else {
        mul_div(size_usd, BPS_SCALE, collateral_usd)
    }
}

/// Whether the collateral covers the margin that the size asks for.
pub open spec fn margin_covered(size_usd: u64, collateral_usd: u64) -> bool {
    collateral_usd >= maintenance_threshold(size_usd)
}

/// What a new position is admitted with: its size and collateral where the
/// margin is covered, else zero for both.
pub open spec fn admitted(size_usd: u64, collateral_usd: u64) -> (u64, u64) {
    if margin_covered(size_usd, collateral_usd) {
        (size_usd, collateral_usd)
    } else {
        (0, 0)
    }
}

/// The collateral after an addition, and the leverage that follows.
pub open spec fn collateral_added(current_collateral: u64, additional_collateral: u64, size: u64)
    -> Result<AddCollateralOutput, ErrorCode> {
    if current_collateral + additional_collateral > u64::MAX {
        Err(ErrorCode::MathOverflow)
    } else {
        let total = (current_collateral + additional_collateral) as u64;
        match leverage_or_zero(size, total) {
            None => Err(ErrorCode::MathOverflow),
            Some(leverage) => Ok(
                AddCollateralOutput { new_total_collateral: total, new_leverage: leverage },
            ),
        }
    }
}

/// Whether a removal is granted: no more is asked for than there is, and what
/// stays covers the margin.
pub open spec fn removal_granted(current_collateral: u64, remove_amount: u64, size: u64) -> bool {
    remove_amount <= current_collateral && margin_covered(
        size,
        (current_collateral - remove_amount) as u64,
    )
}

/// The outcome of a removal. A removal that is granted leaves the
/// difference; one that is not granted, be it for the margin or because more
/// is asked for than there is, leaves the collateral as it was and removes
/// nothing.
pub open spec fn collateral_removed(current_collateral: u64, remove_amount: u64, size: u64)
    -> Result<RemoveCollateralOutput, ErrorCode> {
    let granted = removal_granted(current_collateral, remove_amount, size);
    let kept = if granted {
        (current_collateral - remove_amount) as u64
    } else {
        current_collateral
    };
    match leverage_or_zero(size, kept) {
        None => Err(ErrorCode::MathOverflow),
        Some(leverage) => Ok(
            RemoveCollateralOutput {
                new_collateral: kept,
                removed_amount: if granted {
                    remove_amount
                } else {
                    0
                },
                can_remove: if granted {
                    1
                } else {
                    0
                },
                new_leverage: leverage,
            },
        ),
    }
}

/// Computes the signed profit and loss of a position.
pub fn compute_pnl(size_usd: u64, entry_price: u64, current_price: u64, side: u8) -> (r: Result<
    i64,
    ErrorCode,
>)
    ensures
        r == profit_and_loss(size_usd, entry_price, current_price, side),
{
    if side > SIDE_SHORT || entry_price == 0 || entry_price > i64::MAX as u64 || current_price
        > i64::MAX as u64 {
        return Err(ErrorCode::InvalidInput);
    }
    if size_usd > i64::MAX as u64 {
        return Err(ErrorCode::MathOverflow);
    }
    let gain = if side == SIDE_LONG {
        current_price >= entry_price
    } else {
        entry_price >= current_price
    };
    let distance: u64 = if current_price >= entry_price {
        current_price - entry_price
    } else {
        entry_price - current_price
    };
    let ghost product = size_usd * price_move(entry_price, current_price, side);
    assert(size_usd * distance <= 0x7fff_ffff_ffff_ffff * 0x7fff_ffff_ffff_ffff)
        by (nonlinear_arith)
        requires
            size_usd <= 0x7fff_ffff_ffff_ffff,
            distance <= 0x7fff_ffff_ffff_ffff,
    ;
    let magnitude: u128 = (size_usd as u128) * (distance as u128);
    assert(gain ==> product == magnitude) by (nonlinear_arith)
        requires
            gain ==> price_move(entry_price, current_price, side) == distance,
            product == size_usd * price_move(entry_price, current_price, side),
            magnitude == size_usd * distance,
    ;
    assert(!gain ==> product == -magnitude) by (nonlinear_arith)
        requires
            !gain ==> price_move(entry_price, current_price, side) == -distance,
            product == size_usd * price_move(entry_price, current_price, side),
            magnitude == size_usd * distance,
    ;
    let quotient: u128 = magnitude / (entry_price as u128);
    if gain {
        if magnitude > i64::MAX as u128 {
            return Err(ErrorCode::MathOverflow);
        }
        Ok(quotient as i64)
    } else {
        if magnitude > 0x8000_0000_0000_0000 {
            return Err(ErrorCode::MathOverflow);
        }
        if quotient == 0x8000_0000_0000_0000 {
            Ok(i64::MIN)
        } else {
            Ok(-(quotient as i64))
        }
    }
}

/// Adds signed profit and loss to the collateral.
fn value_with_pnl(collateral_usd: u64, pnl: i64) -> (r: Result<i64, ErrorCode>)
    ensures
        r == match signed_value(collateral_usd, pnl) {
            Some(v) => Ok::<i64, ErrorCode>(v as i64),
            None => Err(ErrorCode::MathOverflow),
        },
{
    if collateral_usd > i64::MAX as u64 {
        return Err(ErrorCode::MathOverflow);
    }
    match (collateral_usd as i64).checked_add(pnl) {
        Some(v) => Ok(v),
        None => Err(ErrorCode::MathOverflow),
    }
}

/// Takes everything under zero as zero.
fn clamp(value: i64) -> (r: u64)
    ensures
        r == clamp_to_zero(value as int),
{
    if value > 0 {
        value as u64
    } else {
        0
    }
}

/// Computes size over collateral in basis points, zero without collateral.
pub fn compute_leverage(size_usd: u64, collateral_usd: u64) -> (r: Result<u64, ErrorCode>)
    ensures
        r == crate::math::or_overflow(leverage_or_zero(size_usd, collateral_usd)),
{
    if collateral_usd == 0 {
        Ok(0)
    } else {
        checked_mul_div(size_usd, BPS_SCALE, collateral_usd)
    }
}

/// Values a position at the current price.
pub fn calculate_position_value(
    size_usd: u64,
    collateral_usd: u64,
    entry_price: u64,
    current_price: u64,
    side: u8,
) -> (r: Result<PositionValueOutput, ErrorCode>)
    ensures
        r == position_value(size_usd, collateral_usd, entry_price, current_price, side),
{
    let pnl = compute_pnl(size_usd, entry_price, current_price, side)?;
    let value = value_with_pnl(collateral_usd, pnl)?;
    let current_value = clamp(value);
    let is_liquidatable: u8 = if current_value < size_usd / MARGIN_DIVISOR {
        1
    } else {
        0
    };
    Ok(PositionValueOutput { current_value, pnl, is_liquidatable })
}

/// Admits a new position where its collateral covers the margin, and hands
/// back zero for size and collateral where it does not.
pub fn open_position(size: u64, collateral: u64) -> (r: (u64, u64))
    ensures
        r == admitted(size, collateral),
{
    if collateral >= size / MARGIN_DIVISOR {
        (size, collateral)
    } else {
        (0, 0)
    }
}

/// Realizes a position's profit and loss at the current price.
pub fn close_position(
    size_usd: u64,
    collateral_usd: u64,
    entry_price: u64,
    current_price: u64,
    side: u8,
) -> (r: Result<ClosePositionOutput, ErrorCode>)
    ensures
        r == close_outcome(size_usd, collateral_usd, entry_price, current_price, side),
{
    let pnl = compute_pnl(size_usd, entry_price, current_price, side)?;
    let value = value_with_pnl(collateral_usd, pnl)?;
    let can_close: u8 = if value > 0 {
        1
    } else {
        0
    };
    Ok(ClosePositionOutput { realized_pnl: pnl, final_balance: clamp(value), can_close })
}

/// Adds collateral to a position and recomputes its leverage.
pub fn add_collateral(current_collateral: u64, additional_collateral: u64, size: u64) -> (r:
    Result<AddCollateralOutput, ErrorCode>)
    ensures
        r == collateral_added(current_collateral, additional_collateral, size),
{
    let total = match current_collateral.checked_add(additional_collateral) {
        Some(t) => t,
        None => {
            return Err(ErrorCode::MathOverflow);
        },
    };
    let leverage = compute_leverage(size, total)?;
    Ok(AddCollateralOutput { new_total_collateral: total, new_leverage: leverage })
}

/// Takes collateral out of a position where no more is asked for than there
/// is and what is left covers the margin. A request that is not granted
/// changes nothing.
pub fn remove_collateral(current_collateral: u64, remove_amount: u64, size: u64) -> (r: Result<
    RemoveCollateralOutput,
    ErrorCode,
>)
    ensures
        r == collateral_removed(current_collateral, remove_amount, size),
{
    let granted = remove_amount <= current_collateral && current_collateral - remove_amount >= size
        / MARGIN_DIVISOR;
    let kept = if granted {
        current_collateral - remove_amount
    } else {
        current_collateral
    };
    let leverage = compute_leverage(size, kept)?;
    Ok(
        RemoveCollateralOutput {
            new_collateral: kept,
            removed_amount: if granted {
                remove_amount
            } else {
                0
            },
            can_remove: if granted {
                1
            } else {
                0
            },
            new_leverage: leverage,
        },
    )
}

/// Values a position and, where it is under the threshold, takes the
/// liquidation penalty off it.
pub fn liquidate(
    size_usd: u64,
    collateral_usd: u64,
    entry_price: u64,
    current_price: u64,
    side: u8,
) -> (r: Result<LiquidateOutput, ErrorCode>)
    ensures
        r == liquidation_outcome(size_usd, collateral_usd, entry_price, current_price, side),
{
    let v = calculate_position_value(size_usd, collateral_usd, entry_price, current_price, side)?;
    if v.is_liquidatable == 1 {
        let penalty = v.current_value / PENALTY_DIVISOR;
        Ok(
            LiquidateOutput {
                is_liquidatable: 1,
                remaining_collateral: v.current_value - penalty,
                liquidation_penalty: penalty,
            },
        )
    } else {
        Ok(
            LiquidateOutput {
                is_liquidatable: 0,
                remaining_collateral: v.current_value,
                liquidation_penalty: 0,
            },
        )
    }
}

/// A removal never takes more than there is, and either hands out what was
/// asked for or nothing: what is kept and what is removed add up to what
/// there was.
pub proof fn lemma_removal_conserves(current_collateral: u64, remove_amount: u64, size: u64)
    requires
        collateral_removed(current_collateral, remove_amount, size) is Ok,
    ensures
        ({
            let o = collateral_removed(current_collateral, remove_amount, size)->Ok_0;
            &&& o.new_collateral + o.removed_amount == current_collateral
            &&& o.can_remove == 1 ==> o.removed_amount == remove_amount && remove_amount
                <= current_collateral && margin_covered(size, o.new_collateral)
            &&& o.can_remove != 1 ==> o.can_remove == 0 && o.removed_amount == 0
                && o.new_collateral == current_collateral
            &&& remove_amount > current_collateral ==> o.can_remove == 0
        }),
{
}

/// A position can be liquidated exactly where its value, with everything
/// under zero taken as zero, is under a twentieth of its size.
pub proof fn lemma_liquidation_threshold(
    size_usd: u64,
    collateral_usd: u64,
    entry_price: u64,
    current_price: u64,
    side: u8,
)
    requires
        position_value(size_usd, collateral_usd, entry_price, current_price, side) is Ok,
    ensures
        ({
            let v = position_value(size_usd, collateral_usd, entry_price, current_price, side)->Ok_0;
            &&& v.current_value == clamp_to_zero(collateral_usd + v.pnl)
            &&& v.is_liquidatable == 1 <==> v.current_value < size_usd / MARGIN_DIVISOR
            &&& v.is_liquidatable == 0 <==> v.current_value >= size_usd / MARGIN_DIVISOR
        }),
{
}

/// A liquidation never pays out more than the position is worth: penalty and
/// remainder add up to the value.
pub proof fn lemma_liquidation_conserves(
    size_usd: u64,
    collateral_usd: u64,
    entry_price: u64,
    current_price: u64,
    side: u8,
)
    requires
        liquidation_outcome(size_usd, collateral_usd, entry_price, current_price, side) is Ok,
    ensures
        ({
            let v = position_value(size_usd, collateral_usd, entry_price, current_price, side)->Ok_0;
            let l = liquidation_outcome(
                size_usd,
                collateral_usd,
                entry_price,
                current_price,
                side,
            )->Ok_0;
            &&& l.is_liquidatable == v.is_liquidatable
            &&& l.remaining_collateral + l.liquidation_penalty == v.current_value
        }),
{
}

} // verus!
