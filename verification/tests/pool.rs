use confidential_core::error::ErrorCode;
use confidential_core::pool::{
    add_liquidity, remove_liquidity, swap, withdraw_fees, withdraw_sol_fees, AddLiquidityParams,
    RemoveLiquidityParams, SolFeesWithdrawn, SwapParams, WithdrawFeesParams, WithdrawSolFeesParams,
};
use confidential_core::state::{Perpetuals, Pool, TokenRatios};
use confidential_core::state::{
    Assets, BorrowRateParams, BorrowRateState, Custody, Fees, FeesMode, FeesStats, OracleParams,
    OracleType, Permissions, PositionStats, PricingParams, TradeStats, VolumeStats,
};

fn custody_with(mode: FeesMode, locked: u64, owned: u64) -> Custody {
    let stats = PositionStats {
        open_positions: 0,
        collateral_usd: 0,
        size_usd: 0,
        borrow_size_usd: 0,
        locked_amount: 0,
        weighted_price: 0,
        total_quantity: 0,
        cumulative_interest_usd: 0,
        cumulative_interest_snapshot: 0,
    };
    Custody {
        pool: [1; 32],
        mint: [2; 32],
        token_account: [3; 32],
        decimals: 6,
        is_stable: false,
        is_virtual: false,
        oracle: OracleParams {
            oracle_account: [4; 32],
            oracle_type: OracleType::Custom,
            oracle_authority: [5; 32],
            max_price_error: 0,
            max_price_age_sec: 0,
        },
        pricing: PricingParams {
            use_ema: false,
            use_unrealized_pnl_in_aum: false,
            trade_spread_long: 100,
            trade_spread_short: 200,
            swap_spread: 0,
            min_initial_leverage: 10_000,
            max_initial_leverage: 1_000_000,
            max_leverage: 0,
            max_payoff_mult: 0,
            max_utilization: 0,
            max_position_locked_usd: 0,
            max_total_locked_usd: 0,
        },
        permissions: Permissions {
            allow_swap: true,
            allow_add_liquidity: true,
            allow_remove_liquidity: true,
            allow_open_position: true,
            allow_close_position: true,
            allow_pnl_withdrawal: true,
            allow_collateral_withdrawal: true,
            allow_size_change: true,
        },
        fees: Fees {
            mode,
            ratio_mult: 0,
            utilization_mult: 2_000,
            swap_in: 100,
            swap_out: 200,
            stable_swap_in: 0,
            stable_swap_out: 0,
            add_liquidity: 30,
            remove_liquidity: 40,
            open_position: 50,
            close_position: 60,
            liquidation: 0,
            protocol_share: 0,
            fee_max: 250,
            fee_optimal: 100,
        },
        borrow_rate: BorrowRateParams {
            base_rate: 0,
            slope1: 0,
            slope2: 0,
            optimal_utilization: 8_000,
        },
        assets: Assets { collateral: 0, protocol_fees: 70, owned, locked },
        collected_fees: FeesStats {
            swap_usd: 1,
            add_liquidity_usd: 2,
            remove_liquidity_usd: 3,
            open_position_usd: 4,
            close_position_usd: 5,
            liquidation_usd: 6,
        },
        volume_stats: VolumeStats {
            swap_usd: 10,
            add_liquidity_usd: 20,
            remove_liquidity_usd: 30,
            open_position_usd: 40,
            close_position_usd: 50,
            liquidation_usd: 60,
        },
        trade_stats: TradeStats { profit_usd: 0, loss_usd: 0, oi_long_usd: 0, oi_short_usd: 0 },
        long_positions: stats,
        short_positions: stats,
        borrow_rate_state: BorrowRateState { current_rate: 0, cumulative_interest: 0, last_update: 0 },
        bump: 9,
        token_account_bump: 8,
    }
}

fn pool(aum_usd: u128) -> Pool {
    Pool {
        name: String::from("main"),
        custodies: vec![[1; 32]],
        ratios: vec![TokenRatios { target: 1, min: 0, max: 2 }],
        aum_usd,
        bump: 3,
        lp_token_bump: 4,
        inception_time: 5,
    }
}

fn same_custody(a: &Custody, b: &Custody) -> bool {
    format!("{:?}", a) == format!("{:?}", b)
}

fn same_pool(a: &Pool, b: &Pool) -> bool {
    a.name == b.name
        && a.custodies == b.custodies
        && format!("{:?}", a.ratios) == format!("{:?}", b.ratios)
        && a.aum_usd == b.aum_usd
        && a.bump == b.bump
        && a.lp_token_bump == b.lp_token_bump
        && a.inception_time == b.inception_time
}

#[test]
fn swap_books_both_custodies() {
    let mut receiving = custody_with(FeesMode::Fixed, 0, 1_000_000);
    let mut dispensing = custody_with(FeesMode::Fixed, 0, 500_000);
    let q = swap(&mut receiving, &mut dispensing, SwapParams { amount_in: 100_000, min_amount_out: 95_080 })
        .unwrap();
    assert_eq!((q.amount_out, q.fee_in, q.fee_out), (95_080, 1_000, 1_940));
    assert_eq!(receiving.assets.owned, 1_100_000);
    assert_eq!(receiving.collected_fees.swap_usd, 1_001);
    assert_eq!(receiving.volume_stats.swap_usd, 100_010);
    assert_eq!(dispensing.assets.owned, 404_920);
    assert_eq!(dispensing.collected_fees.swap_usd, 1_941);
    assert_eq!(dispensing.volume_stats.swap_usd, 10);
    // Nothing else moved.
    let mut expected = custody_with(FeesMode::Fixed, 0, 1_100_000);
    expected.collected_fees.swap_usd = 1_001;
    expected.volume_stats.swap_usd = 100_010;
    assert!(same_custody(&receiving, &expected));
}

#[test]
fn swap_refuses_and_changes_nothing() {
    let cases = [
        (SwapParams { amount_in: 0, min_amount_out: 1 }, 500_000, ErrorCode::InvalidInput),
        (SwapParams { amount_in: 1, min_amount_out: 0 }, 500_000, ErrorCode::InvalidInput),
        (SwapParams { amount_in: 100_000, min_amount_out: 95_081 }, 500_000, ErrorCode::InvalidInput),
        (SwapParams { amount_in: 100_000, min_amount_out: 1 }, 95_079, ErrorCode::MathOverflow),
        (SwapParams { amount_in: u64::MAX, min_amount_out: 1 }, 500_000, ErrorCode::MathOverflow),
    ];
    for (params, dispensing_owned, error) in cases {
        let mut receiving = custody_with(FeesMode::Fixed, 0, 1_000_000);
        let mut dispensing = custody_with(FeesMode::Fixed, 0, dispensing_owned);
        assert_eq!(swap(&mut receiving, &mut dispensing, params).err(), Some(error));
        assert!(same_custody(&receiving, &custody_with(FeesMode::Fixed, 0, 1_000_000)));
        assert!(same_custody(&dispensing, &custody_with(FeesMode::Fixed, 0, dispensing_owned)));
    }
}

#[test]
fn swap_that_overflows_late_changes_nothing() {
    // The receiving side can be booked, the dispensing side cannot.
    let mut receiving = custody_with(FeesMode::Fixed, 0, 1_000);
    let mut dispensing = custody_with(FeesMode::Fixed, 0, 1_000_000);
    dispensing.collected_fees.swap_usd = u64::MAX;
    let before = dispensing;
    let r = swap(&mut receiving, &mut dispensing, SwapParams { amount_in: 100_000, min_amount_out: 1 });
    assert_eq!(r.err(), Some(ErrorCode::MathOverflow));
    assert!(same_custody(&receiving, &custody_with(FeesMode::Fixed, 0, 1_000)));
    assert!(same_custody(&dispensing, &before));
    // The receiving custody cannot hold the amount.
    let mut receiving = custody_with(FeesMode::Fixed, 0, u64::MAX);
    let mut dispensing = custody_with(FeesMode::Fixed, 0, 1_000_000);
    let r = swap(&mut receiving, &mut dispensing, SwapParams { amount_in: 100_000, min_amount_out: 1 });
    assert_eq!(r.err(), Some(ErrorCode::MathOverflow));
    assert!(same_custody(&dispensing, &custody_with(FeesMode::Fixed, 0, 1_000_000)));
}

#[test]
fn deposit_books_custody_and_pool() {
    let mut p = pool(1_000);
    let mut c = custody_with(FeesMode::Fixed, 0, 50_000);
    let r = add_liquidity(&mut p, &mut c, AddLiquidityParams { amount_in: 10_000, min_lp_amount_out: 9_970 })
        .unwrap();
    assert_eq!((r.amount, r.fee), (9_970, 30));
    assert_eq!(c.assets.owned, 60_000);
    assert_eq!(c.collected_fees.add_liquidity_usd, 32);
    assert_eq!(c.volume_stats.add_liquidity_usd, 10_020);
    assert_eq!(p.aum_usd, 10_970);
    assert!(same_pool(&p, &pool(10_970)));
}

#[test]
fn deposit_refuses_and_changes_nothing() {
    let cases = [
        (AddLiquidityParams { amount_in: 0, min_lp_amount_out: 1 }, 1_000u128, 50_000, ErrorCode::InvalidInput),
        (AddLiquidityParams { amount_in: 1, min_lp_amount_out: 0 }, 1_000, 50_000, ErrorCode::InvalidInput),
        (AddLiquidityParams { amount_in: 10_000, min_lp_amount_out: 9_971 }, 1_000, 50_000, ErrorCode::InvalidInput),
        (AddLiquidityParams { amount_in: 10_000, min_lp_amount_out: 1 }, 1_000, u64::MAX, ErrorCode::MathOverflow),
        (AddLiquidityParams { amount_in: 10_000, min_lp_amount_out: 1 }, u128::MAX, 50_000, ErrorCode::MathOverflow),
        (AddLiquidityParams { amount_in: u64::MAX, min_lp_amount_out: 1 }, 1_000, 50_000, ErrorCode::MathOverflow),
    ];
    for (params, aum, owned, error) in cases {
        let mut p = pool(aum);
        let mut c = custody_with(FeesMode::Fixed, 0, owned);
        assert_eq!(add_liquidity(&mut p, &mut c, params).err(), Some(error));
        assert!(same_pool(&p, &pool(aum)));
        assert!(same_custody(&c, &custody_with(FeesMode::Fixed, 0, owned)));
    }
}

#[test]
fn withdrawal_books_custody_and_pool() {
    let mut p = pool(100_000);
    let mut c = custody_with(FeesMode::Fixed, 0, 50_000);
    let r = remove_liquidity(&mut p, &mut c, RemoveLiquidityParams { lp_amount_in: 10_000, min_amount_out: 9_960 })
        .unwrap();
    assert_eq!((r.amount, r.fee), (9_960, 40));
    assert_eq!(c.assets.owned, 40_040);
    assert_eq!(c.collected_fees.remove_liquidity_usd, 43);
    assert_eq!(c.volume_stats.remove_liquidity_usd, 10_030);
    assert!(same_pool(&p, &pool(90_000)));
}

#[test]
fn withdrawal_refuses_and_changes_nothing() {
    let cases = [
        (RemoveLiquidityParams { lp_amount_in: 0, min_amount_out: 1 }, 100_000u128, 50_000, ErrorCode::InvalidInput),
        (RemoveLiquidityParams { lp_amount_in: 1, min_amount_out: 0 }, 100_000, 50_000, ErrorCode::InvalidInput),
        (RemoveLiquidityParams { lp_amount_in: 10_000, min_amount_out: 9_961 }, 100_000, 50_000, ErrorCode::InvalidInput),
        (RemoveLiquidityParams { lp_amount_in: 10_000, min_amount_out: 1 }, 100_000, 9_959, ErrorCode::MathOverflow),
        (RemoveLiquidityParams { lp_amount_in: 10_000, min_amount_out: 1 }, 9_999, 50_000, ErrorCode::MathOverflow),
    ];
    for (params, aum, owned, error) in cases {
        let mut p = pool(aum);
        let mut c = custody_with(FeesMode::Fixed, 0, owned);
        assert_eq!(remove_liquidity(&mut p, &mut c, params).err(), Some(error));
        assert!(same_pool(&p, &pool(aum)));
        assert!(same_custody(&c, &custody_with(FeesMode::Fixed, 0, owned)));
    }
}

#[test]
fn deposit_then_withdrawal_moves_the_pool_by_the_tokens() {
    let mut p = pool(0);
    let mut c = custody_with(FeesMode::Fixed, 0, 0);
    let minted = add_liquidity(&mut p, &mut c, AddLiquidityParams { amount_in: 10_000, min_lp_amount_out: 1 })
        .unwrap();
    assert_eq!(p.aum_usd, minted.amount as u128);
    remove_liquidity(&mut p, &mut c, RemoveLiquidityParams { lp_amount_in: minted.amount, min_amount_out: 1 })
        .unwrap();
    assert_eq!(p.aum_usd, 0);
}

#[test]
fn fees_are_withdrawn() {
    let mut c = custody_with(FeesMode::Fixed, 0, 1_000);
    assert_eq!(withdraw_fees(&mut c, WithdrawFeesParams { amount: 30 }), Ok(9));
    assert_eq!((c.assets.protocol_fees, c.assets.owned), (40, 970));
    // No amount named: all of them.
    assert_eq!(withdraw_fees(&mut c, WithdrawFeesParams { amount: 0 }), Ok(9));
    assert_eq!((c.assets.protocol_fees, c.assets.owned), (0, 930));
}

#[test]
fn fees_withdrawal_refuses_and_changes_nothing() {
    let mut c = custody_with(FeesMode::Fixed, 0, 1_000);
    assert_eq!(withdraw_fees(&mut c, WithdrawFeesParams { amount: 71 }), Err(ErrorCode::InvalidInput));
    assert!(same_custody(&c, &custody_with(FeesMode::Fixed, 0, 1_000)));
    let mut c = custody_with(FeesMode::Fixed, 0, 69);
    assert_eq!(withdraw_fees(&mut c, WithdrawFeesParams { amount: 70 }), Err(ErrorCode::MathOverflow));
    assert_eq!(withdraw_fees(&mut c, WithdrawFeesParams { amount: 0 }), Err(ErrorCode::MathOverflow));
    assert!(same_custody(&c, &custody_with(FeesMode::Fixed, 0, 69)));
}

#[test]
fn own_balance_is_withdrawn() {
    let perpetuals = Perpetuals {
        permissions: custody_with(FeesMode::Fixed, 0, 0).permissions,
        pools: vec![],
        transfer_authority_bump: 1,
        perpetuals_bump: 2,
        inception_time: 0,
    };
    assert_eq!(
        withdraw_sol_fees(&perpetuals, 1_000, 50, WithdrawSolFeesParams { amount: 300 }),
        Ok(SolFeesWithdrawn { perpetuals_lamports: 700, receiver_lamports: 350, bump: 2 })
    );
    assert_eq!(
        withdraw_sol_fees(&perpetuals, 1_000, 50, WithdrawSolFeesParams { amount: 0 }),
        Ok(SolFeesWithdrawn { perpetuals_lamports: 0, receiver_lamports: 1_050, bump: 2 })
    );
    assert_eq!(
        withdraw_sol_fees(&perpetuals, 1_000, 50, WithdrawSolFeesParams { amount: 1_001 }),
        Err(ErrorCode::MathOverflow)
    );
    assert_eq!(
        withdraw_sol_fees(&perpetuals, 1_000, u64::MAX, WithdrawSolFeesParams { amount: 1 }),
        Err(ErrorCode::MathOverflow)
    );
}
