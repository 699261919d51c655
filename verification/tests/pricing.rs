use confidential_core::error::ErrorCode;
use confidential_core::oracle::{get_price_from_oracle, read_u64_le, DEFAULT_ORACLE_PRICE};
use confidential_core::position::{Position, PositionSide};
use confidential_core::pricing::{
    apply_spread, compute_liquidation_price, compute_swap, get_add_liquidity_amount_and_fee,
    get_assets_under_management, get_entry_price_and_fee, get_exit_price_and_fee,
    get_liquidation_price, get_liquidation_state, get_lp_token_price, get_oracle_price, get_pnl,
    get_remove_liquidity_amount_and_fee, get_swap_amount_and_fees, take_fee,
    GetAddLiquidityAmountAndFeeParams, GetAssetsUnderManagementParams, GetEntryPriceAndFeeParams,
    GetExitPriceAndFeeParams, GetLiquidationPriceParams, GetLiquidationStateParams,
    GetLpTokenPriceParams, GetOraclePriceParams, GetPnlParams,
    GetRemoveLiquidityAmountAndFeeParams, GetSwapAmountAndFeesParams,
};
use confidential_core::state::{Pool, Side};
use confidential_core::state::{
    Assets, BorrowRateParams, BorrowRateState, Custody, Fees, FeesMode, FeesStats, OracleParams,
    OracleType, Permissions, PositionStats, PricingParams, TradeStats, VolumeStats,
};

fn custody_with(mode: FeesMode, locked: u64, owned: u64) -> Custody {
    let stats = PositionStats {
        open_positions: 0,
        collateral_usd: 0,
        size_usd: 0,
        borrow_size_usd: 0,
        locked_amount: 0,
        weighted_price: 0,
        total_quantity: 0,
        cumulative_interest_usd: 0,
        cumulative_interest_snapshot: 0,
    };
    Custody {
        pool: [1; 32],
        mint: [2; 32],
        token_account: [3; 32],
        decimals: 6,
        is_stable: false,
        is_virtual: false,
        oracle: OracleParams {
            oracle_account: [4; 32],
            oracle_type: OracleType::Custom,
            oracle_authority: [5; 32],
            max_price_error: 0,
            max_price_age_sec: 0,
        },
        pricing: PricingParams {
            use_ema: false,
            use_unrealized_pnl_in_aum: false,
            trade_spread_long: 100,
            trade_spread_short: 200,
            swap_spread: 0,
            min_initial_leverage: 10_000,
            max_initial_leverage: 1_000_000,
            max_leverage: 0,
            max_payoff_mult: 0,
            max_utilization: 0,
            max_position_locked_usd: 0,
            max_total_locked_usd: 0,
        },
        permissions: Permissions {
            allow_swap: true,
            allow_add_liquidity: true,
            allow_remove_liquidity: true,
            allow_open_position: true,
            allow_close_position: true,
            allow_pnl_withdrawal: true,
            allow_collateral_withdrawal: true,
            allow_size_change: true,
        },
        fees: Fees {
            mode,
            ratio_mult: 0,
            utilization_mult: 2_000,
            swap_in: 100,
            swap_out: 200,
            stable_swap_in: 0,
            stable_swap_out: 0,
            add_liquidity: 30,
            remove_liquidity: 40,
            open_position: 50,
            close_position: 60,
            liquidation: 0,
            protocol_share: 0,
            fee_max: 250,
            fee_optimal: 100,
        },
        borrow_rate: BorrowRateParams {
            base_rate: 0,
            slope1: 0,
            slope2: 0,
            optimal_utilization: 8_000,
        },
        assets: Assets { collateral: 0, protocol_fees: 70, owned, locked },
        collected_fees: FeesStats {
            swap_usd: 1,
            add_liquidity_usd: 2,
            remove_liquidity_usd: 3,
            open_position_usd: 4,
            close_position_usd: 5,
            liquidation_usd: 6,
        },
        volume_stats: VolumeStats {
            swap_usd: 10,
            add_liquidity_usd: 20,
            remove_liquidity_usd: 30,
            open_position_usd: 40,
            close_position_usd: 50,
            liquidation_usd: 60,
        },
        trade_stats: TradeStats { profit_usd: 0, loss_usd: 0, oi_long_usd: 0, oi_short_usd: 0 },
        long_positions: stats,
        short_positions: stats,
        borrow_rate_state: BorrowRateState { current_rate: 0, cumulative_interest: 0, last_update: 0 },
        bump: 9,
        token_account_bump: 8,
    }
}

fn oracle_account(price: u64) -> Vec<u8> {
    let mut data = vec![0xAAu8; 8];
    data.extend_from_slice(&price.to_le_bytes());
    data.extend_from_slice(&[0u8; 32]);
    data
}

fn position(side: PositionSide, entry_price: u64) -> Position {
    Position {
        owner: [7; 32],
        position_id: 1,
        side,
        size_usd_encrypted: [1; 32],
        collateral_usd_encrypted: [2; 32],
        entry_price,
        open_time: 0,
        update_time: 0,
        owner_enc_pubkey: [3; 32],
        size_nonce: 0,
        collateral_nonce: 0,
        liquidator: [0; 32],
        bump: 0,
    }
}

fn entry(size: u64, collateral: u64, side: Side) -> GetEntryPriceAndFeeParams {
    GetEntryPriceAndFeeParams { collateral, size, side }
}

#[test]
fn oracle_reads_the_price_behind_the_header() {
    let c = custody_with(FeesMode::Fixed, 0, 0);
    assert_eq!(get_price_from_oracle(&c.oracle, &oracle_account(123_456_789_012)), Ok(123_456_789_012));
    assert_eq!(get_price_from_oracle(&c.oracle, &oracle_account(u64::MAX)), Ok(u64::MAX));
    assert_eq!(get_price_from_oracle(&c.oracle, &oracle_account(0)), Ok(0));
    assert_eq!(
        get_oracle_price(&c, &oracle_account(77), GetOraclePriceParams { ema: false }),
        Ok(77)
    );
}

#[test]
fn oracle_refuses_a_short_account() {
    let c = custody_with(FeesMode::Fixed, 0, 0);
    let data = oracle_account(5);
    assert_eq!(data.len(), 48);
    assert_eq!(get_price_from_oracle(&c.oracle, &data[..47]), Err(ErrorCode::InvalidInput));
    assert_eq!(get_price_from_oracle(&c.oracle, &[]), Err(ErrorCode::InvalidInput));
}

#[test]
fn other_oracles_give_the_default_price() {
    let mut c = custody_with(FeesMode::Fixed, 0, 0);
    c.oracle.oracle_type = OracleType::Pyth;
    assert_eq!(get_price_from_oracle(&c.oracle, &[]), Ok(50_000_000_000));
    assert_eq!(DEFAULT_ORACLE_PRICE, 50000_00_0000);
    assert_eq!(get_oracle_price(&c, &[], GetOraclePriceParams { ema: true }), Ok(50_000_000_000));
    c.oracle.oracle_type = OracleType::Unset;
    assert_eq!(get_price_from_oracle(&c.oracle, &[]), Ok(DEFAULT_ORACLE_PRICE));
}

#[test]
fn bytes_are_read_lowest_first() {
    let data = [0u8, 1, 2, 3, 4, 5, 6, 7, 8, 9];
    assert_eq!(read_u64_le(&data, 0), 0x0706050403020100);
    assert_eq!(read_u64_le(&data, 2), 0x0908070605040302);
}

#[test]
fn liquidation_price_by_leverage() {
    // Ten times leverage: the long threshold is 9.5 %, the short one 100.5 %.
    assert_eq!(compute_liquidation_price(true, 50_000, 100_000), Ok(4_750));
    assert_eq!(compute_liquidation_price(false, 50_000, 100_000), Ok(50_250));
    // 95_000_000 / 30_000 = 3166; 50_000 * 3166 / 10_000.
    assert_eq!(compute_liquidation_price(true, 50_000, 30_000), Ok(15_830));
    // 5_000_000 / 30_000 = 166, plus 10_000.
    assert_eq!(compute_liquidation_price(false, 50_000, 30_000), Ok(50_830));
    assert_eq!(compute_liquidation_price(true, 50_000, 0), Err(ErrorCode::MathOverflow));
    assert_eq!(compute_liquidation_price(false, 50_000, 0), Err(ErrorCode::MathOverflow));
    assert_eq!(compute_liquidation_price(false, u64::MAX, 1), Err(ErrorCode::MathOverflow));
}

#[test]
fn spread_moves_the_price() {
    assert_eq!(apply_spread(true, 50_000, 100), Ok(50_500));
    assert_eq!(apply_spread(false, 50_000, 100), Ok(49_500));
    assert_eq!(apply_spread(false, 50_000, 10_000), Ok(0));
    assert_eq!(apply_spread(false, 50_000, 10_001), Err(ErrorCode::MathOverflow));
    assert_eq!(apply_spread(true, u64::MAX, 1), Err(ErrorCode::MathOverflow));
    assert_eq!(apply_spread(true, u64::MAX / 2, 10_000), Err(ErrorCode::MathOverflow));
}

#[test]
fn entry_quote_for_a_long_position() {
    let c = custody_with(FeesMode::Fixed, 0, 0);
    let q = get_entry_price_and_fee(&c, &oracle_account(50_000), entry(10_000, 1_000, Side::Long))
        .unwrap();
    // Leverage 100_000 bps; spread of 1 %; fee of 50 bps on the size.
    assert_eq!(q.entry_price, 50_500);
    assert_eq!(q.liquidation_price, 4_750);
    assert_eq!(q.fee, 50);
}

#[test]
fn entry_quote_for_a_short_position() {
    let c = custody_with(FeesMode::Fixed, 0, 0);
    let q = get_entry_price_and_fee(&c, &oracle_account(50_000), entry(10_000, 1_000, Side::Short))
        .unwrap();
    // Spread of 2 % downwards.
    assert_eq!(q.entry_price, 49_000);
    assert_eq!(q.liquidation_price, 50_250);
    assert_eq!(q.fee, 50);
}

#[test]
fn entry_quote_uses_the_fee_curve() {
    // Utilization 500 bps on the linear curve: 50 + 100 = 150 bps of 10_000.
    let c = custody_with(FeesMode::Linear, 500, 10_000);
    let q = get_entry_price_and_fee(&c, &oracle_account(50_000), entry(10_000, 1_000, Side::Long))
        .unwrap();
    assert_eq!(q.fee, 150);
}

#[test]
fn leverage_gate() {
    let mut c = custody_with(FeesMode::Fixed, 0, 0);
    let data = oracle_account(50_000);
    // Ten times leverage is 100_000 basis points.
    c.pricing.min_initial_leverage = 100_000;
    c.pricing.max_initial_leverage = 100_000;
    assert!(get_entry_price_and_fee(&c, &data, entry(10_000, 1_000, Side::Long)).is_ok());
    c.pricing.min_initial_leverage = 100_001;
    c.pricing.max_initial_leverage = 1_000_000;
    assert_eq!(
        get_entry_price_and_fee(&c, &data, entry(10_000, 1_000, Side::Long)).err(),
        Some(ErrorCode::InvalidInput)
    );
    c.pricing.min_initial_leverage = 0;
    c.pricing.max_initial_leverage = 99_999;
    assert_eq!(
        get_entry_price_and_fee(&c, &data, entry(10_000, 1_000, Side::Long)).err(),
        Some(ErrorCode::InvalidInput)
    );
    c.pricing.max_initial_leverage = 100_000;
    assert!(get_entry_price_and_fee(&c, &data, entry(10_000, 1_000, Side::Short)).is_ok());
}

#[test]
fn entry_quote_refuses_invalid_input() {
    let c = custody_with(FeesMode::Fixed, 0, 0);
    let data = oracle_account(50_000);
    for p in [entry(0, 1_000, Side::Long), entry(10_000, 0, Side::Long), entry(10_000, 1_000, Side::Unset)] {
        assert_eq!(get_entry_price_and_fee(&c, &data, p).err(), Some(ErrorCode::InvalidInput));
    }
    assert_eq!(
        get_entry_price_and_fee(&c, &data[..40], entry(10_000, 1_000, Side::Long)).err(),
        Some(ErrorCode::InvalidInput)
    );
}

#[test]
fn entry_quote_reports_overflow() {
    let mut c = custody_with(FeesMode::Fixed, 0, 0);
    c.pricing.max_initial_leverage = u64::MAX;
    let data = oracle_account(50_000);
    assert_eq!(
        get_entry_price_and_fee(&c, &data, entry(u64::MAX / 2, 1_000, Side::Long)).err(),
        Some(ErrorCode::MathOverflow)
    );
    assert_eq!(
        get_entry_price_and_fee(&c, &oracle_account(u64::MAX), entry(10_000, 1_000, Side::Long)).err(),
        Some(ErrorCode::MathOverflow)
    );
}

#[test]
fn exit_quote_moves_the_price_against_the_trader() {
    let c = custody_with(FeesMode::Fixed, 0, 0);
    let data = oracle_account(50_000);
    let long = get_exit_price_and_fee(&c, &position(PositionSide::Long, 1), &data, GetExitPriceAndFeeParams {})
        .unwrap();
    // The short spread, downwards; 60 bps of the assumed size of 10_000.
    assert_eq!(long.price, 49_000);
    assert_eq!(long.fee, 60);
    let short = get_exit_price_and_fee(&c, &position(PositionSide::Short, 1), &data, GetExitPriceAndFeeParams {})
        .unwrap();
    assert_eq!(short.price, 50_500);
    assert_eq!(short.fee, 60);
    assert_eq!(
        get_exit_price_and_fee(&c, &position(PositionSide::Long, 1), &[], GetExitPriceAndFeeParams {}).err(),
        Some(ErrorCode::InvalidInput)
    );
}

#[test]
fn pnl_in_percent() {
    let c = custody_with(FeesMode::Fixed, 0, 0);
    let at = |side, entry_price, price| {
        let r = get_pnl(&position(side, entry_price), &c, &oracle_account(price), GetPnlParams {}).unwrap();
        (r.profit, r.loss)
    };
    assert_eq!(at(PositionSide::Long, 50_000, 55_000), (10, 0));
    assert_eq!(at(PositionSide::Long, 50_000, 45_000), (0, 10));
    assert_eq!(at(PositionSide::Short, 50_000, 55_000), (0, 10));
    assert_eq!(at(PositionSide::Short, 50_000, 45_000), (10, 0));
    assert_eq!(at(PositionSide::Long, 50_000, 50_000), (0, 0));
    assert_eq!(at(PositionSide::Short, 50_000, 50_000), (0, 0));
    assert_eq!(at(PositionSide::Long, 3, 4), (33, 0));
}

#[test]
fn pnl_reports_what_cannot_be_computed() {
    let c = custody_with(FeesMode::Fixed, 0, 0);
    assert_eq!(
        get_pnl(&position(PositionSide::Long, 0), &c, &oracle_account(5), GetPnlParams {}).err(),
        Some(ErrorCode::MathOverflow)
    );
    assert_eq!(
        get_pnl(&position(PositionSide::Long, 1), &c, &oracle_account(u64::MAX), GetPnlParams {}).err(),
        Some(ErrorCode::MathOverflow)
    );
    assert_eq!(
        get_pnl(&position(PositionSide::Long, 1), &c, &[1, 2, 3], GetPnlParams {}).err(),
        Some(ErrorCode::InvalidInput)
    );
}

#[test]
fn liquidation_price_of_a_position() {
    let params = || GetLiquidationPriceParams { add_collateral: 0, remove_collateral: 0 };
    // At the assumed leverage of 1000 bps: 95_000 and 15_000 over 10_000.
    assert_eq!(get_liquidation_price(&position(PositionSide::Long, 1_000), params()), Ok(9_500));
    assert_eq!(get_liquidation_price(&position(PositionSide::Short, 1_000), params()), Ok(1_500));
    assert_eq!(
        get_liquidation_price(&position(PositionSide::Long, u64::MAX), params()),
        Err(ErrorCode::MathOverflow)
    );
}

#[test]
fn liquidation_state_of_a_position() {
    let c = custody_with(FeesMode::Fixed, 0, 0);
    let state = |side, price| {
        get_liquidation_state(&position(side, 1_000), &c, &oracle_account(price), GetLiquidationStateParams {})
    };
    assert_eq!(state(PositionSide::Long, 9_500), Ok(1));
    assert_eq!(state(PositionSide::Long, 9_501), Ok(0));
    assert_eq!(state(PositionSide::Short, 1_500), Ok(1));
    assert_eq!(state(PositionSide::Short, 1_499), Ok(0));
}

#[test]
fn fee_comes_off_an_amount() {
    let r = take_fee(10_000, 30).unwrap();
    assert_eq!((r.amount, r.fee), (9_970, 30));
    let r = take_fee(10_000, 10_000).unwrap();
    assert_eq!((r.amount, r.fee), (0, 10_000));
    let r = take_fee(333, 30).unwrap();
    assert_eq!((r.amount, r.fee), (333, 0));
    assert_eq!(take_fee(10_000, 10_001).err(), Some(ErrorCode::MathOverflow));
    assert_eq!(take_fee(u64::MAX, 2).err(), Some(ErrorCode::MathOverflow));
}

#[test]
fn swap_quote() {
    // 1 % comes off 100_000, 98 % of 99_000 are converted, 2 % come off 97_020.
    let q = compute_swap(100_000, 100, 200).unwrap();
    assert_eq!((q.amount_out, q.fee_in, q.fee_out), (95_080, 1_000, 1_940));
    let c = custody_with(FeesMode::Fixed, 0, 0);
    let q = get_swap_amount_and_fees(&c, &c, GetSwapAmountAndFeesParams { amount_in: 100_000 }).unwrap();
    assert_eq!((q.amount_out, q.fee_in, q.fee_out), (95_080, 1_000, 1_940));
    assert_eq!(compute_swap(u64::MAX, 1, 1).err(), Some(ErrorCode::MathOverflow));
    assert_eq!(compute_swap(100, 20_000, 1).err(), Some(ErrorCode::MathOverflow));
    let q = compute_swap(0, 100, 200).unwrap();
    assert_eq!((q.amount_out, q.fee_in, q.fee_out), (0, 0, 0));
}

#[test]
fn liquidity_quotes() {
    let c = custody_with(FeesMode::Fixed, 0, 0);
    let r = get_add_liquidity_amount_and_fee(&c, GetAddLiquidityAmountAndFeeParams { amount_in: 10_000 })
        .unwrap();
    assert_eq!((r.amount, r.fee), (9_970, 30));
    let r = get_remove_liquidity_amount_and_fee(
        &c,
        GetRemoveLiquidityAmountAndFeeParams { lp_amount_in: 10_000 },
    )
    .unwrap();
    assert_eq!((r.amount, r.fee), (9_960, 40));
}

#[test]
fn pool_figures() {
    let pool = Pool {
        name: String::from("main"),
        custodies: vec![],
        ratios: vec![],
        aum_usd: 1 << 100,
        bump: 0,
        lp_token_bump: 0,
        inception_time: 0,
    };
    assert_eq!(get_assets_under_management(&pool, GetAssetsUnderManagementParams {}), Ok(1 << 100));
    assert_eq!(get_lp_token_price(GetLpTokenPriceParams {}), Ok(1_000_000));
}
