//! Prices, fees and liquidation thresholds quoted from a custody's
//! configuration and its oracle.

use vstd::prelude::*;
use crate::error::ErrorCode;
use crate::fees::{calculate_fee_rate, fee_rate};
use crate::math::{BPS_SCALE, bps_of, checked_diff, checked_mul_div, checked_sum, mul_div, or_overflow};
use crate::oracle::{get_price_from_oracle, oracle_price};
use crate::position::{Position, PositionSide};
use crate::state::{
    AmountAndFee, Custody, NewPositionPricesAndFee, Pool, PriceAndFee, ProfitAndLoss, Side,
    SwapAmountAndFees,
};

verus! {

/// The margin under which a position is liquidated, in basis points of its
/// size.
pub const MAINTENANCE_MARGIN_BPS: u64 = 500;

/// The leverage, in basis points, that quotes for an open position assume.
pub const ESTIMATED_LEVERAGE_BPS: u64 = 1000;

/// The size that an exit quote assumes.
pub const ESTIMATED_EXIT_SIZE: u64 = 10000;

/// What is left of a swapped amount after conversion, in hundredths.
pub const SWAP_RATE_PERCENT: u64 = 98;

/// The price of one liquidity-pool token.
pub const LP_TOKEN_PRICE: u64 = 1_000000;

pub struct GetEntryPriceAndFeeParams {
    pub collateral: u64,
    pub size: u64,
    pub side: Side,
}

pub struct GetExitPriceAndFeeParams {}

pub struct GetPnlParams {}

pub struct GetLiquidationPriceParams {
    pub add_collateral: u64,
    pub remove_collateral: u64,
}

pub struct GetLiquidationStateParams {}

pub struct GetOraclePriceParams {
    pub ema: bool,
}

pub struct GetSwapAmountAndFeesParams {
    pub amount_in: u64,
}

pub struct GetAddLiquidityAmountAndFeeParams {
    pub amount_in: u64,
}

pub struct GetRemoveLiquidityAmountAndFeeParams {
    pub lp_amount_in: u64,
}

pub struct GetAssetsUnderManagementParams {}

pub struct GetLpTokenPriceParams {}

/// Size over collateral, in basis points: `size * 10000 / collateral`.
pub open spec fn leverage_bps(size: u64, collateral: u64) -> Option<u64> {
    mul_div(size, BPS_SCALE, collateral)
}

/// The price at which a long position is liquidated: the entry price times
/// `(10000 - 500) * 10000 / leverage`, over 10000.
pub open spec fn long_liquidation_price(entry_price: u64, leverage: u64) -> Option<u64> {
    let keep = (BPS_SCALE - MAINTENANCE_MARGIN_BPS) * BPS_SCALE / (leverage as int);
    if leverage == 0 || entry_price * keep > u64::MAX {
        None
    } else {
        Some((entry_price * keep / (BPS_SCALE as int)) as u64)
    }
}

/// The price at which a short position is liquidated: the entry price times
/// `500 * 10000 / leverage + 10000`, over 10000.
pub open spec fn short_liquidation_price(entry_price: u64, leverage: u64) -> Option<u64> {
    let rise = MAINTENANCE_MARGIN_BPS * BPS_SCALE / (leverage as int) + BPS_SCALE;
    if leverage == 0 || entry_price * rise > u64::MAX {
        None
    } else {
        Some((entry_price * rise / (BPS_SCALE as int)) as u64)
    }
}

/// The liquidation price of a position on either side.
pub open spec fn liquidation_price(long: bool, entry_price: u64, leverage: u64) -> Option<u64> {
    if long {
        long_liquidation_price(entry_price, leverage)
    } else {
        short_liquidation_price(entry_price, leverage)
    }
}

/// A price moved by a spread in basis points: up where `up` holds, else down.
pub open spec fn price_with_spread(up: bool, price: u64, spread_bps: u64) -> Option<u64> {
    let amount = price * spread_bps / (BPS_SCALE as int);
    if price * spread_bps > u64::MAX {
        None
    } else if up {
        if price + amount > u64::MAX {
            None
        } else {
            Some((price + amount) as u64)
        }
    } else {
        if amount > price {
            None
        } else {
            Some((price - amount) as u64)
        }
    }
}

/// Computes the liquidation price of a position on either side.
pub fn compute_liquidation_price(long: bool, entry_price: u64, leverage: u64) -> (r: Result<
    u64,
    ErrorCode,
>)
    ensures
        r == or_overflow(liquidation_price(long, entry_price, leverage)),
{
    if long {
        let keep = checked_mul_div(BPS_SCALE - MAINTENANCE_MARGIN_BPS, BPS_SCALE, leverage)?;
        checked_mul_div(entry_price, keep, BPS_SCALE)
    } else {
        let part = checked_mul_div(MAINTENANCE_MARGIN_BPS, BPS_SCALE, leverage)?;
        let rise = checked_sum(part, BPS_SCALE)?;
        checked_mul_div(entry_price, rise, BPS_SCALE)
    }
}

/// Moves a price by a spread in basis points.
pub fn apply_spread(up: bool, price: u64, spread_bps: u64) -> (r: Result<u64, ErrorCode>)
    ensures
        r == or_overflow(price_with_spread(up, price, spread_bps)),
{
    let amount = checked_mul_div(price, spread_bps, BPS_SCALE)?;
    if up {
        checked_sum(price, amount)
    } else {
        checked_diff(price, amount)
    }
}

/// The quote for a new position at a given oracle price.
///
/// Rejected as invalid input: zero collateral, zero size, no side, and a
/// leverage outside the custody's initial bounds. The liquidation price
/// follows from the oracle price and the leverage; the entry price is the
/// oracle price moved against the trader by the side's spread; the fee is the
/// custody's rate for opening, on the size.
pub open spec fn entry_quote(custody: Custody, price: u64, params: GetEntryPriceAndFeeParams)
    -> Result<NewPositionPricesAndFee, ErrorCode> {
    let long = params.side == Side::Long;
    let spread = if long {
        custody.pricing.trade_spread_long
    } else {
        custody.pricing.trade_spread_short
    };
    if params.collateral == 0 || params.size == 0 || params.side == Side::Unset {
        Err(ErrorCode::InvalidInput)
    } else {
        match leverage_bps(params.size, params.collateral) {
            None => Err(ErrorCode::MathOverflow),
            Some(leverage) => if leverage < custody.pricing.min_initial_leverage || leverage
                > custody.pricing.max_initial_leverage {
                Err(ErrorCode::InvalidInput)
            } else {
                match (
                    liquidation_price(long, price, leverage),
                    price_with_spread(long, price, spread),
                    fee_rate(custody.fees.mode, custody.fees.open_position, custody),
                ) {
                    (Some(liq), Some(entry), Some(rate)) => match bps_of(params.size, rate) {
                        Some(fee) => Ok(
                            NewPositionPricesAndFee {
                                entry_price: entry,
                                liquidation_price: liq,
                                fee,
                            },
                        ),
                        None => Err(ErrorCode::MathOverflow),
                    },
                    _ => Err(ErrorCode::MathOverflow),
                }
            },
        }
    }
}

/// Quotes entry price, liquidation price and fee for a new position, from the
/// custody and the bytes of its oracle account.
pub fn get_entry_price_and_fee(
    custody: &Custody,
    custody_oracle_account: &[u8],
    params: GetEntryPriceAndFeeParams,
) -> (r: Result<NewPositionPricesAndFee, ErrorCode>)
    ensures
        r == match oracle_price(custody.oracle, custody_oracle_account@) {
            Ok(price) => entry_quote(*custody, price, params),
            Err(e) => Err(ErrorCode::InvalidInput),
        },
{
    if params.collateral == 0 || params.size == 0 {
        return Err(ErrorCode::InvalidInput);
    }
    let long = match params.side {
        Side::Long => true,
        Side::Short => false,
        Side::Unset => {
            return Err(ErrorCode::InvalidInput);
        },
    };
    let price = get_price_from_oracle(&custody.oracle, custody_oracle_account)?;
    let leverage = checked_mul_div(params.size, BPS_SCALE, params.collateral)?;
    if leverage < custody.pricing.min_initial_leverage || leverage
        > custody.pricing.max_initial_leverage {
        return Err(ErrorCode::InvalidInput);
    }
    let liquidation_price = compute_liquidation_price(long, price, leverage)?;
    let spread = if long {
        custody.pricing.trade_spread_long
    } else {
        custody.pricing.trade_spread_short
    };
    let entry_price = apply_spread(long, price, spread)?;
    let rate = calculate_fee_rate(
        custody.fees.mode,
        custody.fees.open_position,
        custody,
        params.size,
    )?;
    let fee = checked_mul_div(params.size, rate, BPS_SCALE)?;
    Ok(NewPositionPricesAndFee { entry_price, liquidation_price, fee })
}

/// A quote is refused as invalid input exactly where the leverage lies
/// outside the custody's initial bounds, for amounts and a side that are
/// valid by themselves; within the bounds it fails on overflow only.
pub proof fn lemma_leverage_gate(custody: Custody, price: u64, params: GetEntryPriceAndFeeParams)
    requires
        params.collateral > 0,
        params.size > 0,
        params.side != Side::Unset,
        leverage_bps(params.size, params.collateral) is Some,
    ensures
        ({
            let leverage = leverage_bps(params.size, params.collateral)->0;
            let within = custody.pricing.min_initial_leverage <= leverage
                <= custody.pricing.max_initial_leverage;
            &&& entry_quote(custody, price, params) == Err::<NewPositionPricesAndFee, ErrorCode>(
                ErrorCode::InvalidInput,
            ) <==> !within
            &&& within ==> entry_quote(custody, price, params) is Ok || entry_quote(
                custody,
                price,
                params,
            ) == Err::<NewPositionPricesAndFee, ErrorCode>(ErrorCode::MathOverflow)
        }),
{
}

/// The quote for closing a position at a given oracle price: the price moved
/// against the trader by the opposite side's spread, and the custody's rate
/// for closing on the assumed size.
pub open spec fn exit_quote(custody: Custody, side: PositionSide, price: u64) -> Result<
    PriceAndFee,
    ErrorCode,
> {
    let long = side == PositionSide::Long;
    let spread = if long {
        custody.pricing.trade_spread_short
    } else {
        custody.pricing.trade_spread_long
    };
    match (
        price_with_spread(!long, price, spread),
        fee_rate(custody.fees.mode, custody.fees.close_position, custody),
    ) {
        (Some(exit), Some(rate)) => match bps_of(ESTIMATED_EXIT_SIZE, rate) {
            Some(fee) => Ok(PriceAndFee { price: exit, fee }),
            None => Err(ErrorCode::MathOverflow),
        },
        _ => Err(ErrorCode::MathOverflow),
    }
}

/// Quotes exit price and fee for a position.
pub fn get_exit_price_and_fee(
    custody: &Custody,
    position: &Position,
    custody_oracle_account: &[u8],
    _params: GetExitPriceAndFeeParams,
) -> (r: Result<PriceAndFee, ErrorCode>)
    ensures
        r == match oracle_price(custody.oracle, custody_oracle_account@) {
            Ok(price) => exit_quote(*custody, position.side, price),
            Err(e) => Err(ErrorCode::InvalidInput),
        },
{
    let price = get_price_from_oracle(&custody.oracle, custody_oracle_account)?;
    let long = match position.side {
        PositionSide::Long => true,
        PositionSide::Short => false,
    };
    let spread = if long {
        custody.pricing.trade_spread_short
    } else {
        custody.pricing.trade_spread_long
    };
    let exit = apply_spread(!long, price, spread)?;
    let rate = calculate_fee_rate(
        custody.fees.mode,
        custody.fees.close_position,
        custody,
        ESTIMATED_EXIT_SIZE,
    )?;
    let fee = checked_mul_div(ESTIMATED_EXIT_SIZE, rate, BPS_SCALE)?;
    Ok(PriceAndFee { price: exit, fee })
}

/// The distance between two prices as whole percent of the entry price.
pub open spec fn percent_move(entry_price: u64, current_price: u64) -> Option<u64> {
    let diff = if current_price >= entry_price {
        current_price - entry_price
    } else {
        entry_price - current_price
    };
    if diff * 100 > u64::MAX || entry_price == 0 {
        None
    } else {
        Some((diff * 100 / (entry_price as int)) as u64)
    }
}

/// Whether a move from the entry price to the current price is in the
/// position's favour. A price that has not moved counts as a gain of zero.
pub open spec fn in_profit(side: PositionSide, entry_price: u64, current_price: u64) -> bool {
    match side {
        PositionSide::Long => current_price >= entry_price,
        PositionSide::Short => current_price <= entry_price,
    }
}

/// Profit or loss of a position in whole percent of its entry price: one of
/// the two is the price move, the other zero.
pub open spec fn pnl_percent(side: PositionSide, entry_price: u64, current_price: u64) -> Result<
    ProfitAndLoss,
    ErrorCode,
> {
    match percent_move(entry_price, current_price) {
        None => Err(ErrorCode::MathOverflow),
        Some(p) => if in_profit(side, entry_price, current_price) {
            Ok(ProfitAndLoss { profit: p, loss: 0 })
        } else {
            Ok(ProfitAndLoss { profit: 0, loss: p })
        },
    }
}

/// Quotes a position's profit or loss at the oracle's price.
pub fn get_pnl(
    position: &Position,
    custody: &Custody,
    custody_oracle_account: &[u8],
    _params: GetPnlParams,
) -> (r: Result<ProfitAndLoss, ErrorCode>)
    ensures
        r == match oracle_price(custody.oracle, custody_oracle_account@) {
            Ok(price) => pnl_percent(position.side, position.entry_price, price),
            Err(e) => Err(ErrorCode::InvalidInput),
        },
{
    let current_price = get_price_from_oracle(&custody.oracle, custody_oracle_account)?;
    let entry_price = position.entry_price;
    let diff = if current_price >= entry_price {
        current_price - entry_price
    } else {
        entry_price - current_price
    };
    let pnl = checked_mul_div(diff, 100, entry_price)?;
    let gain = match position.side {
        PositionSide::Long => current_price >= entry_price,
        PositionSide::Short => current_price <= entry_price,
    };
    if gain {
        Ok(ProfitAndLoss { profit: pnl, loss: 0 })
    } else {
        Ok(ProfitAndLoss { profit: 0, loss: pnl })
    }
}

/// Quotes the liquidation price of an open position at the assumed leverage.
pub fn get_liquidation_price(position: &Position, _params: GetLiquidationPriceParams) -> (r:
    Result<u64, ErrorCode>)
    ensures
        r == or_overflow(
            liquidation_price(
                position.side == PositionSide::Long,
                position.entry_price,
                ESTIMATED_LEVERAGE_BPS,
            ),
        ),
{
    let long = match position.side {
        PositionSide::Long => true,
        PositionSide::Short => false,
    };
    compute_liquidation_price(long, position.entry_price, ESTIMATED_LEVERAGE_BPS)
}

/// Whether a price has reached a position's liquidation price: at or under
/// it for a long position, at or over it for a short one.
pub open spec fn price_liquidates(side: PositionSide, current_price: u64, threshold: u64) -> bool {
    match side {
        PositionSide::Long => current_price <= threshold,
        PositionSide::Short => current_price >= threshold,
    }
}

/// One where the oracle's price has reached the position's liquidation price,
/// else zero.
pub open spec fn liquidation_state(side: PositionSide, entry_price: u64, current_price: u64)
    -> Result<u8, ErrorCode> {
    match liquidation_price(side == PositionSide::Long, entry_price, ESTIMATED_LEVERAGE_BPS) {
        None => Err(ErrorCode::MathOverflow),
        Some(threshold) => if price_liquidates(side, current_price, threshold) {
            Ok(1u8)
        } else {
            Ok(0u8)
        },
    }
}

/// Tells whether a position can be liquidated at the oracle's price.
pub fn get_liquidation_state(
    position: &Position,
    custody: &Custody,
    custody_oracle_account: &[u8],
    _params: GetLiquidationStateParams,
) -> (r: Result<u8, ErrorCode>)
    ensures
        r == match oracle_price(custody.oracle, custody_oracle_account@) {
            Ok(price) => liquidation_state(position.side, position.entry_price, price),
            Err(e) => Err(ErrorCode::InvalidInput),
        },
{
    let current_price = get_price_from_oracle(&custody.oracle, custody_oracle_account)?;
    let long = match position.side {
        PositionSide::Long => true,
        PositionSide::Short => false,
    };
    let threshold = compute_liquidation_price(long, position.entry_price, ESTIMATED_LEVERAGE_BPS)?;
    let is_liquidatable = if long {
        current_price <= threshold
    } else {
        current_price >= threshold
    };
    Ok(if is_liquidatable { 1 } else { 0 })
}

/// Reads the custody's oracle price.
pub fn get_oracle_price(
    custody: &Custody,
    custody_oracle_account: &[u8],
    _params: GetOraclePriceParams,
) -> (r: Result<u64, ErrorCode>)
    ensures
        r == oracle_price(custody.oracle, custody_oracle_account@),
{
    get_price_from_oracle(&custody.oracle, custody_oracle_account)
}

/// An amount less a fee in basis points: what is left, and the fee.
pub open spec fn amount_after_fee(amount: u64, fee_bps: u64) -> Result<AmountAndFee, ErrorCode> {
    match bps_of(amount, fee_bps) {
        None => Err(ErrorCode::MathOverflow),
        Some(fee) => if fee > amount {
            Err(ErrorCode::MathOverflow)
        } else {
            Ok(AmountAndFee { amount: (amount - fee) as u64, fee })
        },
    }
}

/// Takes a fee in basis points off an amount.
pub fn take_fee(amount: u64, fee_bps: u64) -> (r: Result<AmountAndFee, ErrorCode>)
    ensures
        r == amount_after_fee(amount, fee_bps),
{
    let fee = checked_mul_div(amount, fee_bps, BPS_SCALE)?;
    let rest = checked_diff(amount, fee)?;
    Ok(AmountAndFee { amount: rest, fee })
}

/// What a swap pays out: the entry fee comes off the amount paid in, 98
/// hundredths of the rest are converted, and the exit fee comes off that.
pub open spec fn swap_quote(amount_in: u64, fee_in_bps: u64, fee_out_bps: u64) -> Result<
    SwapAmountAndFees,
    ErrorCode,
> {
    match amount_after_fee(amount_in, fee_in_bps) {
        Err(e) => Err(e),
        Ok(paid) => match mul_div(paid.amount, SWAP_RATE_PERCENT, 100) {
            None => Err(ErrorCode::MathOverflow),
            Some(converted) => match amount_after_fee(converted, fee_out_bps) {
                Err(e) => Err(e),
                Ok(out) => Ok(
                    SwapAmountAndFees { amount_out: out.amount, fee_in: paid.fee, fee_out: out.fee },
                ),
            },
        },
    }
}

/// Computes what a swap pays out and the two fees.
pub fn compute_swap(amount_in: u64, fee_in_bps: u64, fee_out_bps: u64) -> (r: Result<
    SwapAmountAndFees,
    ErrorCode,
>)
    ensures
        r == swap_quote(amount_in, fee_in_bps, fee_out_bps),
{
    let paid = take_fee(amount_in, fee_in_bps)?;
    let converted = checked_mul_div(paid.amount, SWAP_RATE_PERCENT, 100)?;
    let out = take_fee(converted, fee_out_bps)?;
    Ok(SwapAmountAndFees { amount_out: out.amount, fee_in: paid.fee, fee_out: out.fee })
}

/// Quotes a swap between two custodies.
pub fn get_swap_amount_and_fees(
    receiving_custody: &Custody,
    dispensing_custody: &Custody,
    params: GetSwapAmountAndFeesParams,
) -> (r: Result<SwapAmountAndFees, ErrorCode>)
    ensures
        r == swap_quote(
            params.amount_in,
            receiving_custody.fees.swap_in,
            dispensing_custody.fees.swap_out,
        ),
{
    compute_swap(params.amount_in, receiving_custody.fees.swap_in, dispensing_custody.fees.swap_out)
}

/// Quotes what adding liquidity credits, and its fee.
pub fn get_add_liquidity_amount_and_fee(
    custody: &Custody,
    params: GetAddLiquidityAmountAndFeeParams,
) -> (r: Result<AmountAndFee, ErrorCode>)
    ensures
        r == amount_after_fee(params.amount_in, custody.fees.add_liquidity),
{
    take_fee(params.amount_in, custody.fees.add_liquidity)
}

/// Quotes what removing liquidity pays out, and its fee.
pub fn get_remove_liquidity_amount_and_fee(
    custody: &Custody,
    params: GetRemoveLiquidityAmountAndFeeParams,
) -> (r: Result<AmountAndFee, ErrorCode>)
    ensures
        r == amount_after_fee(params.lp_amount_in, custody.fees.remove_liquidity),
{
    take_fee(params.lp_amount_in, custody.fees.remove_liquidity)
}

/// The pool's assets under management.
pub fn get_assets_under_management(pool: &Pool, _params: GetAssetsUnderManagementParams) -> (r:
    Result<u128, ErrorCode>)
    ensures
        r == Ok::<u128, ErrorCode>(pool.aum_usd),
{
    Ok(pool.aum_usd)
}

/// The price of one liquidity-pool token, which is fixed.
pub fn get_lp_token_price(_params: GetLpTokenPriceParams) -> (r: Result<u64, ErrorCode>)
    ensures
        r == Ok::<u64, ErrorCode>(LP_TOKEN_PRICE),
{
    Ok(LP_TOKEN_PRICE)
}

} // verus!
