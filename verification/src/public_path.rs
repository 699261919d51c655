//! The life of a position whose amounts are in the clear: it is opened within
//! the leverage bounds, its collateral is adjusted while the margin holds, and
//! it ends by being closed or liquidated. Every step checks first and writes
//! the record only once nothing can fail any more.

use vstd::prelude::*;
use crate::error::ErrorCode;
use crate::margin::{
    AddCollateralOutput, ClosePositionOutput, LiquidateOutput, MARGIN_DIVISOR, PositionValueOutput,
    RemoveCollateralOutput, SIDE_LONG, SIDE_SHORT, close_outcome, collateral_added,
    collateral_removed, liquidation_outcome, margin_covered, position_value,
};
use crate::math::{BPS_SCALE, checked_mul_div};
use crate::mpc::{same_bytes, zero_word};
use crate::pricing::leverage_bps;
use crate::state::{
    AddCollateralPublicParams, OpenPositionPublicParams, PositionState, PricingParams, Pubkey,
    RemoveCollateralPublicParams, Side,
};

verus! {

/// The accounts that a new position belongs to.
pub struct PositionAccounts {
    pub owner: Pubkey,
    pub pool: Pubkey,
    pub custody: Pubkey,
    pub collateral_custody: Pubkey,
    pub bump: u8,
}

/// The number that the margin engine knows a side by.
pub open spec fn side_code(side: Side) -> u8 {
    match side {
        Side::Short => SIDE_SHORT,
        _ => SIDE_LONG,
    }
}

/// The side that a number stands for: 0 is long, 1 is short.
pub open spec fn side_of(code: u8) -> Option<Side> {
    if code == SIDE_LONG {
        Some(Side::Long)
    } else if code == SIDE_SHORT {
        Some(Side::Short)
    } else {
        None
    }
}

impl PositionState {
    /// Whether the position has ended: a position that was closed or
    /// liquidated has no size.
    pub open spec fn is_closed(self) -> bool {
        self.size_usd == 0
    }

    /// Whether the record is sound: a position that is open has collateral,
    /// a side, and an entry price for which profit and loss is defined; one
    /// that has ended has no collateral either.
    pub open spec fn wf(self) -> bool {
        if self.is_closed() {
            self.collateral_usd == 0
        } else {
            &&& self.collateral_usd > 0
            &&& self.side != Side::Unset
            &&& 0 < self.price <= i64::MAX
        }
    }

    /// Why a step on the position is refused for a caller who must own it,
    /// if so: a stranger is turned away before a position that has ended is.
    pub open spec fn owner_refusal(self, caller: Pubkey) -> Option<ErrorCode> {
        if self.owner != caller {
            Some(ErrorCode::InvalidPositionOwner)
        } else if self.is_closed() {
            Some(ErrorCode::InvalidMove)
        } else {
            None
        }
    }

    /// Tells why a step is refused for a caller who must own the position.
    fn check_owner(&self, caller: &Pubkey) -> (r: Result<(), ErrorCode>)
        ensures
            r == match self.owner_refusal(*caller) {
                Some(e) => Err::<(), ErrorCode>(e),
                None => Ok(()),
            },
    {
        if !same_bytes(&self.owner, caller) {
            return Err(ErrorCode::InvalidPositionOwner);
        }
        if self.size_usd == 0 {
            return Err(ErrorCode::InvalidMove);
        }
        Ok(())
    }

    /// The number that the margin engine knows the position's side by.
    fn engine_side(&self) -> (c: u8)
        ensures
            c == side_code(self.side),
    {
        match self.side {
            Side::Short => SIDE_SHORT,
            _ => SIDE_LONG,
        }
    }
}

/// The record of a position that was just opened at time `now`.
pub open spec fn opened(
    accounts: PositionAccounts,
    side: Side,
    params: OpenPositionPublicParams,
    now: i64,
) -> PositionState {
    PositionState {
        owner: accounts.owner,
        pool: accounts.pool,
        custody: accounts.custody,
        collateral_custody: accounts.collateral_custody,
        open_time: now,
        update_time: now,
        side,
        price: params.price,
        size_usd: params.size,
        borrow_size_usd: 0,
        collateral_usd: params.collateral,
        unrealized_profit_usd: 0,
        unrealized_loss_usd: 0,
        cumulative_interest_snapshot: 0,
        locked_amount: 0,
        collateral_amount: 0,
        size_usd_encrypted: zero_word(),
        collateral_usd_encrypted: zero_word(),
        bump: accounts.bump,
    }
}

/// Whether a position may be opened, and why not.
///
/// In this order: a side other than 0 or 1 is an invalid side; a zero size,
/// a zero collateral and a price that is zero or no signed 64-bit value are
/// invalid input; a leverage that leaves 64 bits is an overflow; a leverage
/// outside the initial bounds is invalid input; a collateral under a
/// twentieth of the size is insufficient.
pub open spec fn opening_refusal(params: OpenPositionPublicParams, pricing: PricingParams)
    -> Option<ErrorCode> {
    if side_of(params.side) is None {
        Some(ErrorCode::InvalidPositionSide)
    } else if params.size == 0 || params.collateral == 0 || params.price == 0 || params.price
        > i64::MAX {
        Some(ErrorCode::InvalidInput)
    } else {
        match leverage_bps(params.size, params.collateral) {
            None => Some(ErrorCode::MathOverflow),
            Some(leverage) => if leverage < pricing.min_initial_leverage || leverage
                > pricing.max_initial_leverage {
                Some(ErrorCode::InvalidInput)
            } else if !margin_covered(params.size, params.collateral) {
                Some(ErrorCode::InsufficientCollateral)
            } else {
                None
            },
        }
    }
}

/// Opens a position at time `now`.
pub fn open_position(
    accounts: PositionAccounts,
    params: OpenPositionPublicParams,
    pricing: &PricingParams,
    now: i64,
) -> (r: Result<PositionState, ErrorCode>)
    ensures
        match opening_refusal(params, *pricing) {
            Some(e) => r == Err::<PositionState, ErrorCode>(e),
            None => r == Ok::<PositionState, ErrorCode>(
                opened(accounts, side_of(params.side)->0, params, now),
            ),
        },
        r matches Ok(p) ==> p.wf() && !p.is_closed(),
{
    let side = if params.side == SIDE_LONG {
        Side::Long
    } else if params.side == SIDE_SHORT {
        Side::Short
    } else {
        return Err(ErrorCode::InvalidPositionSide);
    };
    if params.size == 0 || params.collateral == 0 || params.price == 0 || params.price
        > i64::MAX as u64 {
        return Err(ErrorCode::InvalidInput);
    }
    let leverage = checked_mul_div(params.size, BPS_SCALE, params.collateral)?;
    if leverage < pricing.min_initial_leverage || leverage > pricing.max_initial_leverage {
        return Err(ErrorCode::InvalidInput);
    }
    let admitted = crate::margin::open_position(params.size, params.collateral);
    if admitted.0 != params.size || admitted.1 != params.collateral {
        return Err(ErrorCode::InsufficientCollateral);
    }
    Ok(
        PositionState {
            owner: accounts.owner,
            pool: accounts.pool,
            custody: accounts.custody,
            collateral_custody: accounts.collateral_custody,
            open_time: now,
            update_time: now,
            side,
            price: params.price,
            size_usd: admitted.0,
            borrow_size_usd: 0,
            collateral_usd: admitted.1,
            unrealized_profit_usd: 0,
            unrealized_loss_usd: 0,
            cumulative_interest_snapshot: 0,
            locked_amount: 0,
            collateral_amount: 0,
            size_usd_encrypted: [0u8; 32],
            collateral_usd_encrypted: [0u8; 32],
            bump: accounts.bump,
        },
    )
}

/// Values an open position at a price. Anyone may ask.
pub fn calculate_position_value(position: &PositionState, current_price: u64) -> (r: Result<
    PositionValueOutput,
    ErrorCode,
>)
    ensures
        r == if position.is_closed() {
            Err::<PositionValueOutput, ErrorCode>(ErrorCode::InvalidMove)
        } else {
            position_value(
                position.size_usd,
                position.collateral_usd,
                position.price,
                current_price,
                side_code(position.side),
            )
        },
{
    if position.size_usd == 0 {
        return Err(ErrorCode::InvalidMove);
    }
    crate::margin::calculate_position_value(
        position.size_usd,
        position.collateral_usd,
        position.price,
        current_price,
        position.engine_side(),
    )
}

/// What adding collateral comes to: refused for a stranger, for a position
/// that has ended, and for a zero amount; else the margin engine's outcome.
pub open spec fn addition_outcome(
    position: PositionState,
    caller: Pubkey,
    params: AddCollateralPublicParams,
) -> Result<AddCollateralOutput, ErrorCode> {
    match position.owner_refusal(caller) {
        Some(e) => Err(e),
        None => if params.collateral == 0 {
            Err(ErrorCode::InvalidInput)
        } else {
            collateral_added(position.collateral_usd, params.collateral, position.size_usd)
        },
    }
}

/// Adds collateral to a position at time `now`. On failure the record
/// stays as it was.
pub fn add_collateral(
    position: &mut PositionState,
    caller: &Pubkey,
    params: AddCollateralPublicParams,
    now: i64,
) -> (r: Result<AddCollateralOutput, ErrorCode>)
    ensures
        r == addition_outcome(*old(position), *caller, params),
        r matches Ok(o) ==> *final(position) == (PositionState {
            collateral_usd: o.new_total_collateral,
            update_time: now,
            ..*old(position)
        }),
        r is Err ==> *final(position) == *old(position),
        old(position).wf() ==> final(position).wf(),
{
    position.check_owner(caller)?;
    if params.collateral == 0 {
        return Err(ErrorCode::InvalidInput);
    }
    let o = crate::margin::add_collateral(
        position.collateral_usd,
        params.collateral,
        position.size_usd,
    )?;
    position.collateral_usd = o.new_total_collateral;
    position.update_time = now;
    Ok(o)
}

/// What removing collateral comes to.
///
/// In this order: refused for a stranger and for a position that has ended;
/// a zero amount is invalid input; more than the position holds is an
/// overflow; a removal that leaves nothing, or less than the margin, is
/// refused for want of collateral; else the margin engine's outcome.
pub open spec fn removal_outcome(
    position: PositionState,
    caller: Pubkey,
    params: RemoveCollateralPublicParams,
) -> Result<RemoveCollateralOutput, ErrorCode> {
    match position.owner_refusal(caller) {
        Some(e) => Err(e),
        None => if params.collateral == 0 {
            Err(ErrorCode::InvalidInput)
        } else if params.collateral > position.collateral_usd {
            Err(ErrorCode::MathOverflow)
        } else if params.collateral == position.collateral_usd || !margin_covered(
            position.size_usd,
            (position.collateral_usd - params.collateral) as u64,
        ) {
            Err(ErrorCode::InsufficientCollateral)
        } else {
            collateral_removed(position.collateral_usd, params.collateral, position.size_usd)
        },
    }
}

/// Takes collateral out of a position at time `now`. On failure the record
/// stays as it was.
pub fn remove_collateral(
    position: &mut PositionState,
    caller: &Pubkey,
    params: RemoveCollateralPublicParams,
    now: i64,
) -> (r: Result<RemoveCollateralOutput, ErrorCode>)
    ensures
        r == removal_outcome(*old(position), *caller, params),
        r matches Ok(o) ==> {
            &&& o.can_remove == 1
            &&& o.removed_amount == params.collateral
            &&& o.new_collateral == old(position).collateral_usd - params.collateral
            &&& *final(position) == (PositionState {
                collateral_usd: o.new_collateral,
                update_time: now,
                ..*old(position)
            })
        },
        r is Err ==> *final(position) == *old(position),
        old(position).wf() ==> final(position).wf(),
{
    position.check_owner(caller)?;
    if params.collateral == 0 {
        return Err(ErrorCode::InvalidInput);
    }
    if params.collateral > position.collateral_usd {
        return Err(ErrorCode::MathOverflow);
    }
    let left = position.collateral_usd - params.collateral;
    if left == 0 || left < position.size_usd / MARGIN_DIVISOR {
        return Err(ErrorCode::InsufficientCollateral);
    }
    let o = crate::margin::remove_collateral(
        position.collateral_usd,
        params.collateral,
        position.size_usd,
    )?;
    position.collateral_usd = o.new_collateral;
    position.update_time = now;
    Ok(o)
}

/// The record of a position that ended at time `now`: size and collateral
/// are zero.
pub open spec fn ended(position: PositionState, now: i64) -> PositionState {
    PositionState { size_usd: 0, collateral_usd: 0, update_time: now, ..position }
}

/// What closing comes to: refused for a stranger and for a position that
/// has ended; else what the margin engine realizes.
pub open spec fn closing_outcome(position: PositionState, caller: Pubkey, current_price: u64)
    -> Result<ClosePositionOutput, ErrorCode> {
    match position.owner_refusal(caller) {
        Some(e) => Err(e),
        None => close_outcome(
            position.size_usd,
            position.collateral_usd,
            position.price,
            current_price,
            side_code(position.side),
        ),
    }
}

/// Closes a position at a price, at time `now`. On failure the record stays
/// as it was.
pub fn close_position(
    position: &mut PositionState,
    caller: &Pubkey,
    current_price: u64,
    now: i64,
) -> (r: Result<ClosePositionOutput, ErrorCode>)
    ensures
        r == closing_outcome(*old(position), *caller, current_price),
        r is Ok ==> *final(position) == ended(*old(position), now),
        r is Err ==> *final(position) == *old(position),
        old(position).wf() ==> final(position).wf(),
{
    position.check_owner(caller)?;
    let o = crate::margin::close_position(
        position.size_usd,
        position.collateral_usd,
        position.price,
        current_price,
        position.engine_side(),
    )?;
    position.size_usd = 0;
    position.collateral_usd = 0;
    position.update_time = now;
    Ok(o)
}

/// What a liquidation comes to: refused for a position that has ended; a
/// position whose value is not under the maintenance threshold cannot be
/// liquidated; else what the margin engine leaves.
pub open spec fn liquidating_outcome(position: PositionState, current_price: u64) -> Result<
    LiquidateOutput,
    ErrorCode,
> {
    if position.is_closed() {
        Err(ErrorCode::InvalidMove)
    } else {
        match liquidation_outcome(
            position.size_usd,
            position.collateral_usd,
            position.price,
            current_price,
            side_code(position.side),
        ) {
            Err(e) => Err(e),
            Ok(o) => if o.is_liquidatable == 1 {
                Ok(o)
            } else {
                Err(ErrorCode::PositionNotLiquidatable)
            },
        }
    }
}

/// Liquidates a position at a price, at time `now`. Anyone may ask. On
/// failure the record stays as it was.
pub fn liquidate(position: &mut PositionState, current_price: u64, now: i64) -> (r: Result<
    LiquidateOutput,
    ErrorCode,
>)
    ensures
        r == liquidating_outcome(*old(position), current_price),
        r is Ok ==> *final(position) == ended(*old(position), now),
        r is Err ==> *final(position) == *old(position),
        old(position).wf() ==> final(position).wf(),
{
    if position.size_usd == 0 {
        return Err(ErrorCode::InvalidMove);
    }
    let o = crate::margin::liquidate(
        position.size_usd,
        position.collateral_usd,
        position.price,
        current_price,
        position.engine_side(),
    )?;
    if o.is_liquidatable != 1 {
        return Err(ErrorCode::PositionNotLiquidatable);
    }
    position.size_usd = 0;
    position.collateral_usd = 0;
    position.update_time = now;
    Ok(o)
}

/// Closing and liquidating are final and exclude one another: whichever
/// ended a position, every later step on it is refused.
pub proof fn lemma_ended_is_final(
    position: PositionState,
    now: i64,
    caller: Pubkey,
    price: u64,
    add: AddCollateralPublicParams,
    remove: RemoveCollateralPublicParams,
)
    ensures
        ended(position, now).is_closed(),
        ended(position, now).wf(),
        addition_outcome(ended(position, now), caller, add) is Err,
        removal_outcome(ended(position, now), caller, remove) is Err,
        closing_outcome(ended(position, now), caller, price) is Err,
        liquidating_outcome(ended(position, now), price) is Err,
{
}

/// A position is opened exactly where its leverage lies within the initial
/// bounds, for parameters that are sound by themselves and a collateral
/// that covers the margin; a leverage outside the bounds is invalid input.
pub proof fn lemma_opening_gate(params: OpenPositionPublicParams, pricing: PricingParams)
    requires
        side_of(params.side) is Some,
        params.size > 0,
        params.collateral > 0,
        0 < params.price <= i64::MAX,
        leverage_bps(params.size, params.collateral) is Some,
        margin_covered(params.size, params.collateral),
    ensures
        ({
            let leverage = leverage_bps(params.size, params.collateral)->0;
            let within = pricing.min_initial_leverage <= leverage <= pricing.max_initial_leverage;
            &&& within <==> opening_refusal(params, pricing) is None
            &&& !within <==> opening_refusal(params, pricing) == Some(ErrorCode::InvalidInput)
        }),
{
}

} // verus!
