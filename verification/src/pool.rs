//! Accounting of the liquidity pool: swaps, deposits, withdrawals and fee
//! withdrawals. Every operation works its amounts out first and writes the
//! records only once nothing can fail any more.

use vstd::prelude::*;
use crate::error::ErrorCode;
use crate::math::{add_u64, sub_u64};
use crate::pricing::{amount_after_fee, compute_swap, swap_quote, take_fee};
use crate::state::{AmountAndFee, Assets, Custody, FeesStats, Perpetuals, Pool, SwapAmountAndFees, VolumeStats};

verus! {

pub struct SwapParams {
    pub amount_in: u64,
    pub min_amount_out: u64,
}

pub struct AddLiquidityParams {
    pub amount_in: u64,
    pub min_lp_amount_out: u64,
}

pub struct RemoveLiquidityParams {
    pub lp_amount_in: u64,
    pub min_amount_out: u64,
}

pub struct WithdrawFeesParams {
    pub amount: u64,
}

pub struct WithdrawSolFeesParams {
    pub amount: u64,
}

/// What a withdrawal of the exchange's own balance leaves on both sides.
#[derive(Clone, Copy, Debug, PartialEq, Eq, Structural)]
pub struct SolFeesWithdrawn {
    /// What the exchange's account holds afterwards.
    pub perpetuals_lamports: u64,
    /// What the receiver holds afterwards.
    pub receiver_lamports: u64,
    pub bump: u8,
}

/// The receiving custody after a swap: it owns the amount paid in, has
/// collected the entry fee, and its swap volume has grown by the amount.
pub open spec fn received(custody: Custody, amount_in: u64, fee_in: u64) -> Option<Custody> {
    match (
        add_u64(custody.assets.owned, amount_in),
        add_u64(custody.collected_fees.swap_usd, fee_in),
        add_u64(custody.volume_stats.swap_usd, amount_in),
    ) {
        (Some(owned), Some(fees), Some(volume)) => Some(
            Custody {
                assets: Assets { owned, ..custody.assets },
                collected_fees: FeesStats { swap_usd: fees, ..custody.collected_fees },
                volume_stats: VolumeStats { swap_usd: volume, ..custody.volume_stats },
                ..custody
            },
        ),
        _ => None,
    }
}

/// The dispensing custody after a swap: it owns less by the amount paid out
/// and has collected the exit fee.
pub open spec fn dispensed(custody: Custody, amount_out: u64, fee_out: u64) -> Option<Custody> {
    match (
        sub_u64(custody.assets.owned, amount_out),
        add_u64(custody.collected_fees.swap_usd, fee_out),
    ) {
        (Some(owned), Some(fees)) => Some(
            Custody {
                assets: Assets { owned, ..custody.assets },
                collected_fees: FeesStats { swap_usd: fees, ..custody.collected_fees },
                ..custody
            },
        ),
        _ => None,
    }
}

/// A swap's outcome: the two custodies afterwards and the amounts that moved.
///
/// Invalid input: a zero amount, a zero minimum, and a payout under the
/// minimum. Overflow: any amount that leaves 64 bits, and a payout that the
/// dispensing custody does not own.
pub open spec fn swap_outcome(receiving: Custody, dispensing: Custody, params: SwapParams)
    -> Result<(Custody, Custody, SwapAmountAndFees), ErrorCode> {
    if params.amount_in == 0 || params.min_amount_out == 0 {
        Err(ErrorCode::InvalidInput)
    } else {
        match swap_quote(params.amount_in, receiving.fees.swap_in, dispensing.fees.swap_out) {
            Err(e) => Err(e),
            Ok(quote) => if quote.amount_out < params.min_amount_out {
                Err(ErrorCode::InvalidInput)
            } else {
                match (
                    received(receiving, params.amount_in, quote.fee_in),
                    dispensed(dispensing, quote.amount_out, quote.fee_out),
                ) {
                    (Some(r), Some(d)) => Ok((r, d, quote)),
                    _ => Err(ErrorCode::MathOverflow),
                }
            },
        }
    }
}

/// Books the receiving side of a swap.
fn receive(custody: &Custody, amount_in: u64, fee_in: u64) -> (r: Option<Custody>)
    ensures
        r == received(*custody, amount_in, fee_in),
{
    let owned = custody.assets.owned.checked_add(amount_in)?;
    let fees = custody.collected_fees.swap_usd.checked_add(fee_in)?;
    let volume = custody.volume_stats.swap_usd.checked_add(amount_in)?;
    let mut after = *custody;
    after.assets.owned = owned;
    after.collected_fees.swap_usd = fees;
    after.volume_stats.swap_usd = volume;
    Some(after)
}

/// Books the dispensing side of a swap.
fn dispense(custody: &Custody, amount_out: u64, fee_out: u64) -> (r: Option<Custody>)
    ensures
        r == dispensed(*custody, amount_out, fee_out),
{
    let owned = custody.assets.owned.checked_sub(amount_out)?;
    let fees = custody.collected_fees.swap_usd.checked_add(fee_out)?;
    let mut after = *custody;
    after.assets.owned = owned;
    after.collected_fees.swap_usd = fees;
    Some(after)
}

/// Swaps an amount from the receiving custody's asset into the dispensing
/// custody's, and books it on both. On failure both custodies stay as they
/// were.
pub fn swap(receiving_custody: &mut Custody, dispensing_custody: &mut Custody, params: SwapParams) -> (r:
    Result<SwapAmountAndFees, ErrorCode>)
    ensures
        match swap_outcome(*old(receiving_custody), *old(dispensing_custody), params) {
            Err(e) => r == Err::<SwapAmountAndFees, ErrorCode>(e),
            Ok(done) => {
                &&& r == Ok::<SwapAmountAndFees, ErrorCode>(done.2)
                &&& *final(receiving_custody) == done.0
                &&& *final(dispensing_custody) == done.1
            },
        },
        r is Err ==> *final(receiving_custody) == *old(receiving_custody),
        r is Err ==> *final(dispensing_custody) == *old(dispensing_custody),
{
    if params.amount_in == 0 || params.min_amount_out == 0 {
        return Err(ErrorCode::InvalidInput);
    }
    let quote = compute_swap(
        params.amount_in,
        receiving_custody.fees.swap_in,
        dispensing_custody.fees.swap_out,
    )?;
    if quote.amount_out < params.min_amount_out {
        return Err(ErrorCode::InvalidInput);
    }
    let received = receive(receiving_custody, params.amount_in, quote.fee_in);
    let dispensed = dispense(dispensing_custody, quote.amount_out, quote.fee_out);
    match (received, dispensed) {
        (Some(r), Some(d)) => {
            *receiving_custody = r;
            *dispensing_custody = d;
            Ok(quote)
        },
        _ => Err(ErrorCode::MathOverflow),
    }
}

/// The custody after a deposit: it owns the amount paid in, has collected
/// the fee, and its deposit volume has grown by the amount.
pub open spec fn deposited(custody: Custody, amount_in: u64, fee: u64) -> Option<Custody> {
    match (
        add_u64(custody.assets.owned, amount_in),
        add_u64(custody.collected_fees.add_liquidity_usd, fee),
        add_u64(custody.volume_stats.add_liquidity_usd, amount_in),
    ) {
        (Some(owned), Some(fees), Some(volume)) => Some(
            Custody {
                assets: Assets { owned, ..custody.assets },
                collected_fees: FeesStats { add_liquidity_usd: fees, ..custody.collected_fees },
                volume_stats: VolumeStats { add_liquidity_usd: volume, ..custody.volume_stats },
                ..custody
            },
        ),
        _ => None,
    }
}

/// A deposit's outcome: the custody afterwards, the pool's assets under
/// management afterwards, and the pool tokens to mint with the fee taken.
/// One pool token is minted for each unit that is left after the fee.
pub open spec fn deposit_outcome(aum_usd: u128, custody: Custody, params: AddLiquidityParams)
    -> Result<(Custody, u128, AmountAndFee), ErrorCode> {
    if params.amount_in == 0 || params.min_lp_amount_out == 0 {
        Err(ErrorCode::InvalidInput)
    } else {
        match amount_after_fee(params.amount_in, custody.fees.add_liquidity) {
            Err(e) => Err(e),
            Ok(net) => if net.amount < params.min_lp_amount_out {
                Err(ErrorCode::InvalidInput)
            } else {
                match deposited(custody, params.amount_in, net.fee) {
                    Some(c) => if aum_usd + net.amount > u128::MAX {
                        Err(ErrorCode::MathOverflow)
                    } else {
                        Ok((c, (aum_usd + net.amount) as u128, net))
                    },
                    None => Err(ErrorCode::MathOverflow),
                }
            },
        }
    }
}

/// Books a deposit on a custody.
fn deposit(custody: &Custody, amount_in: u64, fee: u64) -> (r: Option<Custody>)
    ensures
        r == deposited(*custody, amount_in, fee),
{
    let owned = custody.assets.owned.checked_add(amount_in)?;
    let fees = custody.collected_fees.add_liquidity_usd.checked_add(fee)?;
    let volume = custody.volume_stats.add_liquidity_usd.checked_add(amount_in)?;
    let mut after = *custody;
    after.assets.owned = owned;
    after.collected_fees.add_liquidity_usd = fees;
    after.volume_stats.add_liquidity_usd = volume;
    Some(after)
}

/// Deposits an amount into a custody of the pool. Hands back the pool tokens
/// to mint and the fee. On failure pool and custody stay as they were.
pub fn add_liquidity(pool: &mut Pool, custody: &mut Custody, params: AddLiquidityParams) -> (r:
    Result<AmountAndFee, ErrorCode>)
    ensures
        match deposit_outcome(old(pool).aum_usd, *old(custody), params) {
            Err(e) => r == Err::<AmountAndFee, ErrorCode>(e),
            Ok(done) => {
                &&& r == Ok::<AmountAndFee, ErrorCode>(done.2)
                &&& *final(custody) == done.0
                &&& *final(pool) == (Pool { aum_usd: done.1, ..*old(pool) })
            },
        },
        r is Err ==> *final(custody) == *old(custody) && *final(pool) == *old(pool),
{
    if params.amount_in == 0 || params.min_lp_amount_out == 0 {
        return Err(ErrorCode::InvalidInput);
    }
    let net = take_fee(params.amount_in, custody.fees.add_liquidity)?;
    if net.amount < params.min_lp_amount_out {
        return Err(ErrorCode::InvalidInput);
    }
    let after = match deposit(custody, params.amount_in, net.fee) {
        Some(c) => c,
        None => {
            return Err(ErrorCode::MathOverflow);
        },
    };
    let aum = match pool.aum_usd.checked_add(net.amount as u128) {
        Some(a) => a,
        None => {
            return Err(ErrorCode::MathOverflow);
        },
    };
    *custody = after;
    pool.aum_usd = aum;
    Ok(net)
}

/// The custody after a withdrawal: it owns less by the amount paid out, has
/// collected the fee, and its withdrawal volume has grown by the pool tokens
/// handed in.
pub open spec fn withdrawn(custody: Custody, lp_amount_in: u64, amount_out: u64, fee: u64)
    -> Option<Custody> {
    match (
        sub_u64(custody.assets.owned, amount_out),
        add_u64(custody.collected_fees.remove_liquidity_usd, fee),
        add_u64(custody.volume_stats.remove_liquidity_usd, lp_amount_in),
    ) {
        (Some(owned), Some(fees), Some(volume)) => Some(
            Custody {
                assets: Assets { owned, ..custody.assets },
                collected_fees: FeesStats { remove_liquidity_usd: fees, ..custody.collected_fees },
                volume_stats: VolumeStats { remove_liquidity_usd: volume, ..custody.volume_stats },
                ..custody
            },
        ),
        _ => None,
    }
}

/// A withdrawal's outcome: the custody afterwards, the pool's assets under
/// management afterwards, and the amount to pay out with the fee taken. The
/// pool's assets fall by the pool tokens handed in.
pub open spec fn withdrawal_outcome(aum_usd: u128, custody: Custody, params: RemoveLiquidityParams)
    -> Result<(Custody, u128, AmountAndFee), ErrorCode> {
    if params.lp_amount_in == 0 || params.min_amount_out == 0 {
        Err(ErrorCode::InvalidInput)
    } else {
        match amount_after_fee(params.lp_amount_in, custody.fees.remove_liquidity) {
            Err(e) => Err(e),
            Ok(net) => if net.amount < params.min_amount_out {
                Err(ErrorCode::InvalidInput)
            } else {
                match withdrawn(custody, params.lp_amount_in, net.amount, net.fee) {
                    Some(c) => if aum_usd < params.lp_amount_in {
                        Err(ErrorCode::MathOverflow)
                    } else {
                        Ok((c, (aum_usd - params.lp_amount_in) as u128, net))
                    },
                    None => Err(ErrorCode::MathOverflow),
                }
            },
        }
    }
}

/// Books a withdrawal on a custody.
fn withdraw(custody: &Custody, lp_amount_in: u64, amount_out: u64, fee: u64) -> (r: Option<Custody>)
    ensures
        r == withdrawn(*custody, lp_amount_in, amount_out, fee),
{
    let owned = custody.assets.owned.checked_sub(amount_out)?;
    let fees = custody.collected_fees.remove_liquidity_usd.checked_add(fee)?;
    let volume = custody.volume_stats.remove_liquidity_usd.checked_add(lp_amount_in)?;
    let mut after = *custody;
    after.assets.owned = owned;
    after.collected_fees.remove_liquidity_usd = fees;
    after.volume_stats.remove_liquidity_usd = volume;
    Some(after)
}

/// Withdraws from a custody of the pool against pool tokens. Hands back the
/// amount to pay out and the fee. On failure pool and custody stay as they
/// were.
pub fn remove_liquidity(pool: &mut Pool, custody: &mut Custody, params: RemoveLiquidityParams) -> (r:
    Result<AmountAndFee, ErrorCode>)
    ensures
        match withdrawal_outcome(old(pool).aum_usd, *old(custody), params) {
            Err(e) => r == Err::<AmountAndFee, ErrorCode>(e),
            Ok(done) => {
                &&& r == Ok::<AmountAndFee, ErrorCode>(done.2)
                &&& *final(custody) == done.0
                &&& *final(pool) == (Pool { aum_usd: done.1, ..*old(pool) })
            },
        },
        r is Err ==> *final(custody) == *old(custody) && *final(pool) == *old(pool),
{
    if params.lp_amount_in == 0 || params.min_amount_out == 0 {
        return Err(ErrorCode::InvalidInput);
    }
    let net = take_fee(params.lp_amount_in, custody.fees.remove_liquidity)?;
    if net.amount < params.min_amount_out {
        return Err(ErrorCode::InvalidInput);
    }
    let after = match withdraw(custody, params.lp_amount_in, net.amount, net.fee) {
        Some(c) => c,
        None => {
            return Err(ErrorCode::MathOverflow);
        },
    };
    let aum = match pool.aum_usd.checked_sub(params.lp_amount_in as u128) {
        Some(a) => a,
        None => {
            return Err(ErrorCode::MathOverflow);
        },
    };
    *custody = after;
    pool.aum_usd = aum;
    Ok(net)
}

/// The amount that a withdrawal of fees asks for: the amount named, or all
/// there is where none is named.
pub open spec fn amount_or_all(amount: u64, all: u64) -> u64 {
    if amount > 0 {
        amount
    } else {
        all
    }
}

/// The custody after its protocol fees were withdrawn: fees and owned funds
/// both fall by the amount. More than the fees there are is invalid input;
/// more than the custody owns is an overflow.
pub open spec fn fees_withdrawn(custody: Custody, params: WithdrawFeesParams) -> Result<
    Custody,
    ErrorCode,
> {
    let amount = amount_or_all(params.amount, custody.assets.protocol_fees);
    if amount > custody.assets.protocol_fees {
        Err(ErrorCode::InvalidInput)
    } else if amount > custody.assets.owned {
        Err(ErrorCode::MathOverflow)
    } else {
        Ok(
            Custody {
                assets: Assets {
                    protocol_fees: (custody.assets.protocol_fees - amount) as u64,
                    owned: (custody.assets.owned - amount) as u64,
                    ..custody.assets
                },
                ..custody
            },
        )
    }
}

/// Withdraws protocol fees from a custody. On failure the custody stays as
/// it was.
pub fn withdraw_fees(custody: &mut Custody, params: WithdrawFeesParams) -> (r: Result<u8, ErrorCode>)
    ensures
        match fees_withdrawn(*old(custody), params) {
            Err(e) => r == Err::<u8, ErrorCode>(e),
            Ok(after) => r == Ok::<u8, ErrorCode>(old(custody).bump) && *final(custody) == after,
        },
        r is Err ==> *final(custody) == *old(custody),
{
    let amount = if params.amount > 0 {
        params.amount
    } else {
        custody.assets.protocol_fees
    };
    if amount > custody.assets.protocol_fees {
        return Err(ErrorCode::InvalidInput);
    }
    if amount > custody.assets.owned {
        return Err(ErrorCode::MathOverflow);
    }
    custody.assets.protocol_fees = custody.assets.protocol_fees - amount;
    custody.assets.owned = custody.assets.owned - amount;
    Ok(custody.bump)
}

/// What moving the exchange's own balance to a receiver leaves on both
/// sides: the amount named, or the whole balance where none is named, goes
/// from one to the other.
pub open spec fn sol_fees_withdrawn(
    bump: u8,
    perpetuals_lamports: u64,
    receiver_lamports: u64,
    params: WithdrawSolFeesParams,
) -> Result<SolFeesWithdrawn, ErrorCode> {
    let amount = amount_or_all(params.amount, perpetuals_lamports);
    if amount > perpetuals_lamports || receiver_lamports + amount > u64::MAX {
        Err(ErrorCode::MathOverflow)
    } else {
        Ok(
            SolFeesWithdrawn {
                perpetuals_lamports: (perpetuals_lamports - amount) as u64,
                receiver_lamports: (receiver_lamports + amount) as u64,
                bump,
            },
        )
    }
}

/// Works out a withdrawal of the exchange's own balance.
pub fn withdraw_sol_fees(
    perpetuals: &Perpetuals,
    perpetuals_lamports: u64,
    receiver_lamports: u64,
    params: WithdrawSolFeesParams,
) -> (r: Result<SolFeesWithdrawn, ErrorCode>)
    ensures
        r == sol_fees_withdrawn(
            perpetuals.perpetuals_bump,
            perpetuals_lamports,
            receiver_lamports,
            params,
        ),
{
    let amount = if params.amount > 0 {
        params.amount
    } else {
        perpetuals_lamports
    };
    let left = match perpetuals_lamports.checked_sub(amount) {
        Some(v) => v,
        None => {
            return Err(ErrorCode::MathOverflow);
        },
    };
    let credited = match receiver_lamports.checked_add(amount) {
        Some(v) => v,
        None => {
            return Err(ErrorCode::MathOverflow);
        },
    };
    Ok(
        SolFeesWithdrawn {
            perpetuals_lamports: left,
            receiver_lamports: credited,
            bump: perpetuals.perpetuals_bump,
        },
    )
}

/// A deposit raises the pool's assets under management by exactly the pool
/// tokens minted, and a withdrawal lowers them by exactly the pool tokens
/// handed in: the assets under management move with these two operations
/// only, and never by another amount.
pub proof fn lemma_aum_follows_liquidity(
    aum_usd: u128,
    custody: Custody,
    add: AddLiquidityParams,
    remove: RemoveLiquidityParams,
)
    ensures
        deposit_outcome(aum_usd, custody, add) matches Ok(done) ==> done.1 == aum_usd
            + done.2.amount && done.2.amount + done.2.fee == add.amount_in,
        withdrawal_outcome(aum_usd, custody, remove) matches Ok(done) ==> done.1 == aum_usd
            - remove.lp_amount_in && done.2.amount + done.2.fee == remove.lp_amount_in,
{
}

} // verus!
