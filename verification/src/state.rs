//! Records of the exchange: configuration, aggregate accounting and the
//! order-matching accounts.

use vstd::prelude::*;

verus! {

/// A ledger address, held as its 32 bytes.
pub type Pubkey = [u8; 32];

#[derive(Clone, Copy, Debug, PartialEq, Eq, Structural)]
pub enum Side {
    /// No side was chosen.
    Unset,
    Long,
    Short,
}

#[derive(Clone, Copy, Debug, PartialEq, Eq, Structural)]
pub enum OracleType {
    /// No oracle is configured.
    Unset,
    Custom,
    Pyth,
}

#[derive(Clone, Copy, Debug, PartialEq, Eq, Structural)]
pub enum FeesMode {
    Fixed,
    Linear,
    Optimal,
}

#[derive(Clone, Copy, Debug, PartialEq, Eq, Structural)]
pub enum AumCalcMode {
    Min,
    Max,
    Last,
    EMA,
}

#[derive(Clone, Copy, Debug)]
pub struct Permissions {
    pub allow_swap: bool,
    pub allow_add_liquidity: bool,
    pub allow_remove_liquidity: bool,
    pub allow_open_position: bool,
    pub allow_close_position: bool,
    pub allow_pnl_withdrawal: bool,
    pub allow_collateral_withdrawal: bool,
    pub allow_size_change: bool,
}

#[derive(Clone, Copy, Debug)]
pub struct OracleParams {
    pub oracle_account: Pubkey,
    pub oracle_type: OracleType,
    pub oracle_authority: Pubkey,
    pub max_price_error: u64,
    pub max_price_age_sec: u32,
}

/// Spreads and leverage limits of one custody, in basis points.
#[derive(Clone, Copy, Debug)]
pub struct PricingParams {
    pub use_ema: bool,
    pub use_unrealized_pnl_in_aum: bool,
    pub trade_spread_long: u64,
    pub trade_spread_short: u64,
    pub swap_spread: u64,
    pub min_initial_leverage: u64,
    pub max_initial_leverage: u64,
    pub max_leverage: u64,
    pub max_payoff_mult: u64,
    pub max_utilization: u64,
    pub max_position_locked_usd: u64,
    pub max_total_locked_usd: u64,
}

/// Fee rates of one custody, in basis points, and the parameters of its fee curve.
#[derive(Clone, Copy, Debug)]
pub struct Fees {
    pub mode: FeesMode,
    pub ratio_mult: u64,
    pub utilization_mult: u64,
    pub swap_in: u64,
    pub swap_out: u64,
    pub stable_swap_in: u64,
    pub stable_swap_out: u64,
    pub add_liquidity: u64,
    pub remove_liquidity: u64,
    pub open_position: u64,
    pub close_position: u64,
    pub liquidation: u64,
    pub protocol_share: u64,
    pub fee_max: u64,
    pub fee_optimal: u64,
}

#[derive(Clone, Copy, Debug)]
pub struct BorrowRateParams {
    pub base_rate: u64,
    pub slope1: u64,
    pub slope2: u64,
    pub optimal_utilization: u64,
}

#[derive(Clone, Copy, Debug)]
pub struct Assets {
    pub collateral: u64,
    pub protocol_fees: u64,
    pub owned: u64,
    pub locked: u64,
}

#[derive(Clone, Copy, Debug)]
pub struct FeesStats {
    pub swap_usd: u64,
    pub add_liquidity_usd: u64,
    pub remove_liquidity_usd: u64,
    pub open_position_usd: u64,
    pub close_position_usd: u64,
    pub liquidation_usd: u64,
}

#[derive(Clone, Copy, Debug)]
pub struct VolumeStats {
    pub swap_usd: u64,
    pub add_liquidity_usd: u64,
    pub remove_liquidity_usd: u64,
    pub open_position_usd: u64,
    pub close_position_usd: u64,
    pub liquidation_usd: u64,
}

#[derive(Clone, Copy, Debug)]
pub struct TradeStats {
    pub profit_usd: u64,
    pub loss_usd: u64,
    pub oi_long_usd: u64,
    pub oi_short_usd: u64,
}

#[derive(Clone, Copy, Debug)]
pub struct PositionStats {
    pub open_positions: u64,
    pub collateral_usd: u64,
    pub size_usd: u64,
    pub borrow_size_usd: u64,
    pub locked_amount: u64,
    pub weighted_price: u128,
    pub total_quantity: u128,
    pub cumulative_interest_usd: u64,
    pub cumulative_interest_snapshot: u128,
}

#[derive(Clone, Copy, Debug)]
pub struct BorrowRateState {
    pub current_rate: u64,
    pub cumulative_interest: u128,
    pub last_update: i64,
}

#[derive(Clone, Copy, Debug)]
pub struct TokenRatios {
    pub target: u64,
    pub min: u64,
    pub max: u64,
}

#[derive(Clone, Copy, Debug)]
pub struct OraclePrice {
    pub price: u64,
    pub exponent: i32,
}

#[derive(Clone, Copy, Debug)]
pub struct PriceAndFee {
    pub price: u64,
    pub fee: u64,
}

#[derive(Clone, Copy, Debug)]
pub struct AmountAndFee {
    pub amount: u64,
    pub fee: u64,
}

#[derive(Clone, Copy, Debug)]
pub struct NewPositionPricesAndFee {
    pub entry_price: u64,
    pub liquidation_price: u64,
    pub fee: u64,
}

#[derive(Clone, Copy, Debug)]
pub struct SwapAmountAndFees {
    pub amount_out: u64,
    pub fee_in: u64,
    pub fee_out: u64,
}

#[derive(Clone, Copy, Debug)]
pub struct ProfitAndLoss {
    pub profit: u64,
    pub loss: u64,
}

/// The exchange's root record.
pub struct Perpetuals {
    pub permissions: Permissions,
    pub pools: Vec<Pubkey>,
    pub transfer_authority_bump: u8,
    pub perpetuals_bump: u8,
    pub inception_time: i64,
}

/// A pool of custodies. `ratios` holds one entry per custody once the pool is
/// configured; `aum_usd` moves only with the liquidity operations.
pub struct Pool {
    pub name: String,
    pub custodies: Vec<Pubkey>,
    pub ratios: Vec<TokenRatios>,
    pub aum_usd: u128,
    pub bump: u8,
    pub lp_token_bump: u8,
    pub inception_time: i64,
}

/// Aggregate accounting of one asset.
#[derive(Clone, Copy, Debug)]
pub struct Custody {
    pub pool: Pubkey,
    pub mint: Pubkey,
    pub token_account: Pubkey,
    pub decimals: u8,
    pub is_stable: bool,
    pub is_virtual: bool,
    pub oracle: OracleParams,
    pub pricing: PricingParams,
    pub permissions: Permissions,
    pub fees: Fees,
    pub borrow_rate: BorrowRateParams,
    pub assets: Assets,
    pub collected_fees: FeesStats,
    pub volume_stats: VolumeStats,
    pub trade_stats: TradeStats,
    pub long_positions: PositionStats,
    pub short_positions: PositionStats,
    pub borrow_rate_state: BorrowRateState,
    pub bump: u8,
    pub token_account_bump: u8,
}

/// A position with size and collateral in the clear.
#[derive(Clone, Copy, Debug)]
pub struct PositionState {
    pub owner: Pubkey,
    pub pool: Pubkey,
    pub custody: Pubkey,
    pub collateral_custody: Pubkey,
    pub open_time: i64,
    pub update_time: i64,
    pub side: Side,
    pub price: u64,
    pub size_usd: u64,
    pub borrow_size_usd: u64,
    pub collateral_usd: u64,
    pub unrealized_profit_usd: u64,
    pub unrealized_loss_usd: u64,
    pub cumulative_interest_snapshot: u128,
    pub locked_amount: u64,
    pub collateral_amount: u64,
    pub size_usd_encrypted: [u8; 32],
    pub collateral_usd_encrypted: [u8; 32],
    pub bump: u8,
}

#[derive(Clone, Copy, Debug)]
pub struct Multisig {
    pub num_signers: u8,
    pub num_signed: u8,
    pub min_signatures: u8,
    pub instruction_accounts_len: u8,
    pub instruction_data_len: u16,
    pub instruction_hash: u64,
    pub signers: [Pubkey; 6],
    pub signed: [u8; 6],
    pub bump: u8,
}

/// A price that the exchange's authority sets by hand.
#[derive(Clone, Copy, Debug)]
pub struct CustomOracle {
    pub price: u64,
    pub expo: i32,
    pub conf: u64,
    pub ema: u64,
    pub publish_time: i64,
}

impl CustomOracle {
    /// Replaces every field of the oracle.
    pub fn set(&mut self, price: u64, expo: i32, conf: u64, ema: u64, publish_time: i64)
        ensures
            *final(self) == (CustomOracle { price, expo, conf, ema, publish_time }),
    {
        self.price = price;
        self.expo = expo;
        self.conf = conf;
        self.ema = ema;
        self.publish_time = publish_time;
    }
}

impl Default for CustomOracle {
    fn default() -> (r: Self)
        ensures
            r == (CustomOracle { price: 0, expo: 0, conf: 0, ema: 0, publish_time: 0 }),
    {
        CustomOracle { price: 0, expo: 0, conf: 0, ema: 0, publish_time: 0 }
    }
}

#[derive(Clone, Copy, Debug)]
pub struct OpenPositionPublicParams {
    pub price: u64,
    pub collateral: u64,
    pub size: u64,
    pub side: u8,
}

#[derive(Clone, Copy, Debug)]
pub struct AddCollateralPublicParams {
    pub collateral: u64,
}

/// Collateral to take out of a position whose amounts are in the clear.
#[derive(Clone, Copy, Debug)]
pub struct RemoveCollateralPublicParams {
    /// Token units, not USD.
    pub collateral: u64,
}

#[derive(Clone, Copy, Debug, PartialEq, Eq, Structural)]
pub enum OrderSide {
    Buy,
    Sell,
}

#[derive(Clone, Copy, Debug, PartialEq, Eq, Structural)]
pub enum OrderType {
    Limit,
    Market,
    /// Immediate or cancel.
    IOC,
    PostOnly,
}

#[derive(Clone, Copy, Debug, PartialEq, Eq, Structural)]
pub enum TimeInForce {
    /// Good till time.
    GTT,
    /// Immediate or cancel.
    IOC,
    PostOnly,
}

#[derive(Clone, Copy, Debug, PartialEq, Eq, Structural)]
pub enum MarketStatus {
    Active,
    Paused,
    Expired,
}

#[derive(Clone, Copy, Debug, PartialEq, Eq, Structural)]
pub enum MarginMode {
    Cross,
    Isolated,
}

/// Configuration of one market and its encrypted engine state.
pub struct MarketState {
    pub market_id: u16,
    pub base_asset_mint: Pubkey,
    pub quote_asset_mint: Pubkey,
    /// Smallest price step.
    pub tick_size: u64,
    pub min_order_size: u64,
    pub max_order_size: u64,
    pub maker_fee_bps: u16,
    pub taker_fee_bps: u16,
    pub engine_state_ciphertext: Vec<u8>,
    pub engine_state_version: u64,
    pub mark_price: u64,
    pub index_price: u64,
    /// Scaled by 1e6.
    pub funding_rate: i64,
    pub last_funding_update_slot: u64,
    pub current_epoch_id: u64,
    pub epoch_start_slot: u64,
    pub epoch_duration_slots: u64,
    pub status: MarketStatus,
    pub bump: u8,
}

/// A trader's encrypted risk state and the accounts that hold their margin.
pub struct TraderState {
    pub trader: Pubkey,
    pub risk_state_ciphertext: Vec<u8>,
    pub risk_state_version: u64,
    pub margin_mode: MarginMode,
    pub has_open_positions: bool,
    pub last_update_slot: u64,
    pub collateral_account: Pubkey,
    pub isolated_margin_accounts: Vec<Pubkey>,
    pub bump: u8,
}

/// The order batch of one epoch and whether it has settled.
pub struct EpochState {
    pub market_id: u16,
    pub epoch_id: u64,
    pub start_slot: u64,
    pub end_slot: u64,
    pub order_batch_ciphertext: Vec<u8>,
    /// Prices that saw orders in this epoch.
    pub price_ticks: Vec<u64>,
    pub is_settled: bool,
    pub settlement_slot: Option<u64>,
    pub bump: u8,
}

/// What is public of a fill: the size is not.
#[derive(Clone, Copy, Debug)]
pub struct FillEvent {
    pub market_id: u16,
    pub epoch_id: u64,
    pub taker: Pubkey,
    pub maker: Pubkey,
    pub side: OrderSide,
    pub price: u64,
    pub slot: u64,
}

/// A position in the mixer pool, readable by its trader only.
pub struct PositionRef {
    pub trader: Pubkey,
    pub position_ciphertext: Vec<u8>,
    pub nonce: u128,
}

/// Positions pooled so that only their aggregate is public.
pub struct MixerPoolState {
    pub market_id: u16,
    pub aggregated_state_ciphertext: Vec<u8>,
    pub position_registry: Vec<PositionRef>,
    pub net_open_interest: i64,
    pub total_collateral: u128,
    pub position_count: u16,
    pub pool: Pubkey,
    pub last_mix_slot: u64,
    pub mix_interval_slots: u64,
    pub base_asset_mint: Pubkey,
    pub quote_asset_mint: Pubkey,
    pub bump: u8,
}

} // verus!
