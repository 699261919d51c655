use confidential_core::admin::{
    add_custody, add_pool, init, remove_custody, remove_pool, set_admin_signers,
    set_custody_config, set_custom_oracle_price, set_permissions, set_test_time, upgrade_custody,
    AddCustodyParams, AddPoolParams, CustodyAccounts, InitBumps, InitParams, RemoveCustodyParams,
    RemovePoolParams, SetAdminSignersParams, SetCustodyConfigParams, SetCustomOraclePriceParams,
    SetPermissionsParams, SetTestTimeParams, UpgradeCustodyParams,
};
use confidential_core::error::ErrorCode;
use confidential_core::state::{
    BorrowRateParams, CustomOracle, Fees, FeesMode, OracleParams, OracleType, Permissions,
    PricingParams, TokenRatios,
};

fn init_params() -> InitParams {
    InitParams {
        min_signatures: 2,
        allow_swap: true,
        allow_add_liquidity: false,
        allow_remove_liquidity: true,
        allow_open_position: false,
        allow_close_position: true,
        allow_pnl_withdrawal: false,
        allow_collateral_withdrawal: true,
        allow_size_change: false,
    }
}

fn bumps() -> InitBumps {
    InitBumps { transfer_authority: 201, perpetuals: 202, multisig: 203 }
}

fn permissions(all: bool) -> Permissions {
    Permissions {
        allow_swap: all,
        allow_add_liquidity: all,
        allow_remove_liquidity: all,
        allow_open_position: all,
        allow_close_position: all,
        allow_pnl_withdrawal: all,
        allow_collateral_withdrawal: all,
        allow_size_change: all,
    }
}

fn oracle() -> OracleParams {
    OracleParams {
        oracle_account: [4; 32],
        oracle_type: OracleType::Custom,
        oracle_authority: [5; 32],
        max_price_error: 6,
        max_price_age_sec: 7,
    }
}

fn pricing() -> PricingParams {
    PricingParams {
        use_ema: true,
        use_unrealized_pnl_in_aum: false,
        trade_spread_long: 1,
        trade_spread_short: 2,
        swap_spread: 3,
        min_initial_leverage: 4,
        max_initial_leverage: 5,
        max_leverage: 6,
        max_payoff_mult: 7,
        max_utilization: 8,
        max_position_locked_usd: 9,
        max_total_locked_usd: 10,
    }
}

fn fees() -> Fees {
    Fees {
        mode: FeesMode::Linear,
        ratio_mult: 1,
        utilization_mult: 2,
        swap_in: 3,
        swap_out: 4,
        stable_swap_in: 5,
        stable_swap_out: 6,
        add_liquidity: 7,
        remove_liquidity: 8,
        open_position: 9,
        close_position: 10,
        liquidation: 11,
        protocol_share: 12,
        fee_max: 13,
        fee_optimal: 14,
    }
}

fn ratio(n: u64) -> TokenRatios {
    TokenRatios { target: n, min: n - 1, max: n + 1 }
}

fn custody_params(ratios: Vec<TokenRatios>) -> AddCustodyParams {
    AddCustodyParams {
        is_stable: true,
        is_virtual: false,
        oracle: oracle(),
        pricing: pricing(),
        permissions: permissions(true),
        fees: fees(),
        borrow_rate: BorrowRateParams { base_rate: 1, slope1: 2, slope2: 3, optimal_utilization: 4 },
        ratios,
    }
}

fn custody_accounts(key: u8) -> CustodyAccounts {
    CustodyAccounts {
        custody: [key; 32],
        custody_token_mint: [key + 1; 32],
        custody_token_account: [key + 2; 32],
        custody_bump: 100 + key,
        token_account_bump: 150 + key,
    }
}

fn mint_data(decimals: u8) -> Vec<u8> {
    let mut data = vec![0u8; 82];
    data[44] = decimals;
    data
}

fn text<T: std::fmt::Debug>(value: &T) -> String {
    format!("{:?}", value)
}

#[test]
fn the_exchange_is_set_up() {
    let (perpetuals, multisig) = init(init_params(), bumps(), 1_000).unwrap();
    let p = perpetuals.permissions;
    assert_eq!(
        [
            p.allow_swap,
            p.allow_add_liquidity,
            p.allow_remove_liquidity,
            p.allow_open_position,
            p.allow_close_position,
            p.allow_pnl_withdrawal,
            p.allow_collateral_withdrawal,
            p.allow_size_change
        ],
        [true, false, true, false, true, false, true, false]
    );
    assert!(perpetuals.pools.is_empty());
    assert_eq!(perpetuals.transfer_authority_bump, 201);
    assert_eq!(perpetuals.perpetuals_bump, 202);
    assert_eq!(perpetuals.inception_time, 1_000);
    assert_eq!((multisig.num_signers, multisig.num_signed, multisig.min_signatures), (0, 0, 2));
    assert_eq!(multisig.instruction_accounts_len, 0);
    assert_eq!(multisig.instruction_data_len, 0);
    assert_eq!(multisig.instruction_hash, 0);
    assert_eq!(multisig.signers, [[0; 32]; 6]);
    assert_eq!(multisig.signed, [0; 6]);
    assert_eq!(multisig.bump, 203);
}

#[test]
fn pools_are_added_and_removed() {
    let (mut perpetuals, _) = init(init_params(), bumps(), 1_000).unwrap();
    let pool = add_pool(&mut perpetuals, [1; 32], AddPoolParams { name: String::from("main") }, 7, 8, 50)
        .unwrap();
    assert_eq!(pool.name, "main");
    assert!(pool.custodies.is_empty());
    assert!(pool.ratios.is_empty());
    assert_eq!((pool.aum_usd, pool.bump, pool.lp_token_bump, pool.inception_time), (0, 7, 8, 50));
    add_pool(&mut perpetuals, [2; 32], AddPoolParams { name: String::from("b") }, 7, 8, 50).unwrap();
    add_pool(&mut perpetuals, [1; 32], AddPoolParams { name: String::from("c") }, 7, 8, 50).unwrap();
    add_pool(&mut perpetuals, [3; 32], AddPoolParams { name: String::from("d") }, 7, 8, 50).unwrap();
    assert_eq!(perpetuals.pools, vec![[1; 32], [2; 32], [1; 32], [3; 32]]);

    assert_eq!(remove_pool(&mut perpetuals, [1; 32], 9, RemovePoolParams {}), Ok(9));
    assert_eq!(perpetuals.pools, vec![[2; 32], [3; 32]]);
    assert_eq!(remove_pool(&mut perpetuals, [4; 32], 9, RemovePoolParams {}), Ok(9));
    assert_eq!(perpetuals.pools, vec![[2; 32], [3; 32]]);
    assert_eq!(perpetuals.perpetuals_bump, 202);
    assert_eq!(perpetuals.inception_time, 1_000);
}

#[test]
fn a_custody_is_added() {
    let (mut perpetuals, _) = init(init_params(), bumps(), 1_000).unwrap();
    let mut pool = add_pool(&mut perpetuals, [1; 32], AddPoolParams { name: String::from("main") }, 7, 8, 50)
        .unwrap();
    let custody = add_custody(
        &mut pool,
        [1; 32],
        custody_accounts(10),
        &mint_data(6),
        custody_params(vec![ratio(5), ratio(6)]),
        70,
    )
    .unwrap();
    assert_eq!(custody.pool, [1; 32]);
    assert_eq!(custody.mint, [11; 32]);
    assert_eq!(custody.token_account, [12; 32]);
    assert_eq!(custody.decimals, 6);
    assert!(custody.is_stable);
    assert!(!custody.is_virtual);
    assert_eq!(text(&custody.oracle), text(&oracle()));
    assert_eq!(text(&custody.pricing), text(&pricing()));
    assert_eq!(text(&custody.permissions), text(&permissions(true)));
    assert_eq!(text(&custody.fees), text(&fees()));
    assert_eq!(custody.borrow_rate.optimal_utilization, 4);
    assert_eq!((custody.assets.owned, custody.assets.locked), (0, 0));
    assert_eq!((custody.assets.collateral, custody.assets.protocol_fees), (0, 0));
    assert_eq!(custody.collected_fees.swap_usd, 0);
    assert_eq!(custody.volume_stats.liquidation_usd, 0);
    assert_eq!(custody.trade_stats.oi_long_usd, 0);
    assert_eq!(custody.long_positions.open_positions, 0);
    assert_eq!(custody.short_positions.total_quantity, 0);
    assert_eq!(custody.borrow_rate_state.last_update, 70);
    assert_eq!(custody.borrow_rate_state.current_rate, 0);
    assert_eq!((custody.bump, custody.token_account_bump), (110, 160));
    assert_eq!(pool.custodies, vec![[10; 32]]);
    assert_eq!(text(&pool.ratios), text(&vec![ratio(5), ratio(6)]));

    add_custody(&mut pool, [1; 32], custody_accounts(20), &mint_data(9), custody_params(vec![ratio(7)]), 71)
        .unwrap();
    assert_eq!(pool.custodies, vec![[10; 32], [20; 32]]);
    assert_eq!(text(&pool.ratios), text(&vec![ratio(5), ratio(6), ratio(7)]));
    assert_eq!(pool.name, "main");
}

#[test]
fn a_custody_needs_a_mint_with_decimals() {
    let (mut perpetuals, _) = init(init_params(), bumps(), 1_000).unwrap();
    let mut pool = add_pool(&mut perpetuals, [1; 32], AddPoolParams { name: String::from("main") }, 7, 8, 50)
        .unwrap();
    let short = vec![0u8; 44];
    let r = add_custody(&mut pool, [1; 32], custody_accounts(10), &short, custody_params(vec![ratio(5)]), 70);
    assert_eq!(r.err(), Some(ErrorCode::InvalidInput));
    assert!(pool.custodies.is_empty());
    assert!(pool.ratios.is_empty());
    let barely = vec![3u8; 45];
    let c = add_custody(&mut pool, [1; 32], custody_accounts(10), &barely, custody_params(vec![]), 70)
        .unwrap();
    assert_eq!(c.decimals, 3);
}

#[test]
fn a_custody_is_removed() {
    let (mut perpetuals, _) = init(init_params(), bumps(), 1_000).unwrap();
    let mut pool = add_pool(&mut perpetuals, [1; 32], AddPoolParams { name: String::from("main") }, 7, 8, 50)
        .unwrap();
    for key in [10u8, 20, 10, 30] {
        add_custody(&mut pool, [1; 32], custody_accounts(key), &mint_data(6), custody_params(vec![ratio(5)]), 70)
            .unwrap();
    }
    let r = remove_custody(&mut pool, [10; 32], 33, RemoveCustodyParams { ratios: vec![ratio(8), ratio(9)] });
    assert_eq!(r, Ok(33));
    // Only the first entry goes.
    assert_eq!(pool.custodies, vec![[20; 32], [10; 32], [30; 32]]);
    assert_eq!(text(&pool.ratios), text(&vec![ratio(8), ratio(9)]));
    let r = remove_custody(&mut pool, [99; 32], 34, RemoveCustodyParams { ratios: vec![] });
    assert_eq!(r, Ok(34));
    assert_eq!(pool.custodies, vec![[20; 32], [10; 32], [30; 32]]);
    assert!(pool.ratios.is_empty());
    assert_eq!((pool.bump, pool.lp_token_bump, pool.inception_time), (7, 8, 50));
}

#[test]
fn a_custody_is_reconfigured() {
    let (mut perpetuals, _) = init(init_params(), bumps(), 1_000).unwrap();
    let mut pool = add_pool(&mut perpetuals, [1; 32], AddPoolParams { name: String::from("main") }, 7, 8, 50)
        .unwrap();
    let mut custody =
        add_custody(&mut pool, [1; 32], custody_accounts(10), &mint_data(6), custody_params(vec![ratio(5)]), 70)
            .unwrap();
    custody.assets.owned = 1_234;
    let mut new_fees = fees();
    new_fees.mode = FeesMode::Optimal;
    new_fees.fee_max = 999;
    let params = SetCustodyConfigParams {
        is_stable: false,
        is_virtual: true,
        oracle: OracleParams { oracle_type: OracleType::Pyth, ..oracle() },
        pricing: PricingParams { max_leverage: 77, ..pricing() },
        permissions: permissions(false),
        fees: new_fees,
        borrow_rate: BorrowRateParams { base_rate: 9, slope1: 8, slope2: 7, optimal_utilization: 6 },
        ratios: vec![ratio(2)],
    };
    assert_eq!(set_custody_config(&mut custody, &mut pool, params), Ok(110));
    assert!(!custody.is_stable);
    assert!(custody.is_virtual);
    assert_eq!(custody.oracle.oracle_type, OracleType::Pyth);
    assert_eq!(custody.pricing.max_leverage, 77);
    assert_eq!(text(&custody.permissions), text(&permissions(false)));
    assert_eq!(custody.fees.mode, FeesMode::Optimal);
    assert_eq!(custody.fees.fee_max, 999);
    assert_eq!(custody.borrow_rate.optimal_utilization, 6);
    // What was accounted stays.
    assert_eq!(custody.assets.owned, 1_234);
    assert_eq!(custody.decimals, 6);
    assert_eq!(custody.mint, [11; 32]);
    assert_eq!(text(&pool.ratios), text(&vec![ratio(2)]));
    assert_eq!(pool.custodies, vec![[10; 32]]);
    assert_eq!(upgrade_custody(&custody, UpgradeCustodyParams {}), Ok(110));
}

#[test]
fn permissions_and_signers_are_set() {
    let (mut perpetuals, mut multisig) = init(init_params(), bumps(), 1_000).unwrap();
    let params = SetPermissionsParams {
        allow_swap: false,
        allow_add_liquidity: true,
        allow_remove_liquidity: false,
        allow_open_position: true,
        allow_close_position: false,
        allow_pnl_withdrawal: true,
        allow_collateral_withdrawal: false,
        allow_size_change: true,
    };
    assert_eq!(set_permissions(&mut perpetuals, params), Ok(202));
    let p = perpetuals.permissions;
    assert_eq!(
        [
            p.allow_swap,
            p.allow_add_liquidity,
            p.allow_remove_liquidity,
            p.allow_open_position,
            p.allow_close_position,
            p.allow_pnl_withdrawal,
            p.allow_collateral_withdrawal,
            p.allow_size_change
        ],
        [false, true, false, true, false, true, false, true]
    );
    assert_eq!(perpetuals.inception_time, 1_000);
    assert_eq!(set_admin_signers(&mut multisig, SetAdminSignersParams { min_signatures: 5 }), Ok(203));
    assert_eq!(multisig.min_signatures, 5);
    assert_eq!(multisig.num_signers, 0);
}

#[test]
fn the_oracle_is_set_by_hand() {
    let mut oracle = CustomOracle::default();
    assert_eq!(text(&oracle), text(&CustomOracle { price: 0, expo: 0, conf: 0, ema: 0, publish_time: 0 }));
    let params = SetCustomOraclePriceParams { price: 1, expo: -8, conf: 3, ema: 4, publish_time: 5 };
    assert_eq!(set_custom_oracle_price(&mut oracle, params), Ok(0));
    assert_eq!(
        (oracle.price, oracle.expo, oracle.conf, oracle.ema, oracle.publish_time),
        (1, -8, 3, 4, 5)
    );
    oracle.set(9, 8, 7, 6, -5);
    assert_eq!(
        (oracle.price, oracle.expo, oracle.conf, oracle.ema, oracle.publish_time),
        (9, 8, 7, 6, -5)
    );
    assert_eq!(set_test_time(SetTestTimeParams { time: 77 }), Ok(0));
}

#[test]
fn codes_have_messages() {
    let all = [
        (ErrorCode::AbortedComputation, "The computation was aborted"),
        (ErrorCode::InvalidGameState, "Invalid game state"),
        (ErrorCode::InvalidMove, "Invalid move"),
        (ErrorCode::InvalidDealerClientPubkey, "Invalid dealer client pubkey"),
        (ErrorCode::ClusterNotSet, "Cluster not set"),
        (ErrorCode::InvalidPositionSide, "Invalid position side"),
        (ErrorCode::InsufficientCollateral, "Insufficient collateral"),
        (ErrorCode::InvalidPositionOwner, "Invalid position owner"),
        (ErrorCode::PositionNotLiquidatable, "Position not liquidatable"),
        (ErrorCode::InvalidInput, "Invalid input parameters"),
        (ErrorCode::MathOverflow, "Math overflow"),
    ];
    for (code, message) in all {
        assert_eq!(code.message(), message);
    }
}
