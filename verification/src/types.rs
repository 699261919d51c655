//! The values that the order-matching computations work on, as they are
//! before encryption.

use vstd::prelude::*;

verus! {

/// The orders of one epoch.
pub struct OrderBatch {
    pub orders: Vec<EncryptedOrder>,
}

/// An order. Only its size is private.
#[derive(Clone, Copy, Debug)]
pub struct EncryptedOrder {
    pub trader_pubkey: [u8; 32],
    pub price: u64,
    /// 0 buys, 1 sells.
    pub side: u8,
    /// Private.
    pub size: u64,
    pub order_type: u8,
    pub time_in_force: u8,
    /// Orders at one price are served in the order of their slots.
    pub submission_slot: u64,
}

/// The state of the matching engine.
pub struct EngineState {
    pub trader_states: Vec<TraderStateEntry>,
    pub orderbook: OrderBookState,
    pub open_interest: u128,
    pub funding_rate_accumulator: i64,
    pub last_funding_update_slot: u64,
}

/// A trader with their risk state.
pub struct TraderStateEntry {
    pub trader: [u8; 32],
    pub state: TraderRiskState,
}

/// What a trader has at risk.
pub struct TraderRiskState {
    /// One entry per market.
    pub positions: Vec<Position>,
    pub collateral: u128,
    pub allocated_margin: u128,
    pub available_margin: u128,
}

/// A position in one market. The sign of the size tells long from short.
#[derive(Clone, Copy, Debug)]
pub struct Position {
    pub market_id: u16,
    pub size: i64,
    pub entry_price: u64,
    pub unrealized_pnl: i64,
}

pub struct OrderBookState {
    pub price_levels: Vec<PriceLevel>,
}

/// A price with the size that rests at it.
#[derive(Clone, Copy, Debug)]
pub struct PriceLevel {
    pub price: u64,
    /// Private.
    pub aggregate_size: u64,
}

pub struct RevealedFills {
    pub fills: Vec<FillMetadata>,
}

/// What is public of a fill: the size is not.
#[derive(Clone, Copy, Debug)]
pub struct FillMetadata {
    pub taker: [u8; 32],
    pub maker: [u8; 32],
    pub market_id: u16,
    pub side: u8,
    pub price: u64,
}

/// What a risk check reveals.
#[derive(Clone, Copy, Debug)]
pub struct RiskCheckResult {
    /// 0 or 1.
    pub is_valid: u8,
    pub new_collateral_requirement: u64,
    /// In percent, rounded.
    pub margin_utilization: u8,
}

/// What a liquidation reveals.
#[derive(Clone, Copy, Debug)]
pub struct LiquidationResult {
    pub is_liquidatable: u8,
    pub remaining_collateral: u64,
    pub liquidation_penalty: u64,
}

/// One position in the mixer pool.
#[derive(Clone, Copy, Debug)]
pub struct MixerPosition {
    pub trader: [u8; 32],
    pub size: i64,
    pub collateral: u128,
    pub entry_price: u64,
    pub unrealized_pnl: i64,
}

/// What the mixer pool reveals of its positions taken together.
#[derive(Clone, Copy, Debug)]
pub struct AggregatedState {
    pub net_open_interest: i64,
    pub total_collateral: u128,
    pub position_count: u16,
}

} // verus!
