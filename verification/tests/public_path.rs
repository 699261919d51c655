use confidential_core::error::ErrorCode;
use confidential_core::margin::{
    AddCollateralOutput, ClosePositionOutput, LiquidateOutput, PositionValueOutput,
    RemoveCollateralOutput,
};
use confidential_core::public_path::{
    add_collateral, calculate_position_value, close_position, liquidate, open_position,
    remove_collateral, PositionAccounts,
};
use confidential_core::state::{
    AddCollateralPublicParams, OpenPositionPublicParams, PositionState, PricingParams,
    RemoveCollateralPublicParams, Side,
};

const OWNER: [u8; 32] = [8; 32];
const STRANGER: [u8; 32] = [6; 32];

fn accounts() -> PositionAccounts {
    PositionAccounts {
        owner: OWNER,
        pool: [1; 32],
        custody: [2; 32],
        collateral_custody: [3; 32],
        bump: 200,
    }
}

fn pricing(min: u64, max: u64) -> PricingParams {
    PricingParams {
        use_ema: false,
        use_unrealized_pnl_in_aum: false,
        trade_spread_long: 0,
        trade_spread_short: 0,
        swap_spread: 0,
        min_initial_leverage: min,
        max_initial_leverage: max,
        max_leverage: 0,
        max_payoff_mult: 0,
        max_utilization: 0,
        max_position_locked_usd: 0,
        max_total_locked_usd: 0,
    }
}

fn params(size: u64, collateral: u64, side: u8) -> OpenPositionPublicParams {
    OpenPositionPublicParams { price: 10_000, collateral, size, side }
}

fn open(size: u64, collateral: u64, side: u8) -> PositionState {
    open_position(accounts(), params(size, collateral, side), &pricing(10_000, 200_000), 100).unwrap()
}

fn same(a: &PositionState, b: &PositionState) -> bool {
    format!("{:?}", a) == format!("{:?}", b)
}

#[test]
fn a_position_is_opened() {
    let p = open(10_000, 1_000, 1);
    assert_eq!(p.owner, OWNER);
    assert_eq!((p.pool, p.custody, p.collateral_custody), ([1; 32], [2; 32], [3; 32]));
    assert_eq!(p.side, Side::Short);
    assert_eq!((p.size_usd, p.collateral_usd, p.price), (10_000, 1_000, 10_000));
    assert_eq!((p.open_time, p.update_time, p.bump), (100, 100, 200));
    assert_eq!((p.borrow_size_usd, p.locked_amount, p.collateral_amount), (0, 0, 0));
    assert_eq!((p.unrealized_profit_usd, p.unrealized_loss_usd), (0, 0));
    assert_eq!(p.size_usd_encrypted, [0; 32]);
    assert_eq!(open(10_000, 1_000, 0).side, Side::Long);
}

#[test]
fn ten_times_leverage_opens_where_the_bounds_hold_it() {
    let at = |min, max| open_position(accounts(), params(10_000, 1_000, 0), &pricing(min, max), 0);
    assert!(at(100_000, 100_000).is_ok());
    assert!(at(10_000, 200_000).is_ok());
    assert_eq!(at(100_001, 200_000).err(), Some(ErrorCode::InvalidInput));
    assert_eq!(at(10_000, 99_999).err(), Some(ErrorCode::InvalidInput));
    assert_eq!(at(200_000, 10_000).err(), Some(ErrorCode::InvalidInput));
}

#[test]
fn opening_refuses_unsound_parameters() {
    let try_open = |p: OpenPositionPublicParams| {
        open_position(accounts(), p, &pricing(0, u64::MAX), 0).err()
    };
    assert_eq!(try_open(params(10_000, 1_000, 2)), Some(ErrorCode::InvalidPositionSide));
    assert_eq!(try_open(params(0, 1_000, 0)), Some(ErrorCode::InvalidInput));
    assert_eq!(try_open(params(10_000, 0, 0)), Some(ErrorCode::InvalidInput));
    assert_eq!(
        try_open(OpenPositionPublicParams { price: 0, collateral: 1_000, size: 10_000, side: 0 }),
        Some(ErrorCode::InvalidInput)
    );
    assert_eq!(
        try_open(OpenPositionPublicParams { price: 1 << 63, collateral: 1_000, size: 10_000, side: 0 }),
        Some(ErrorCode::InvalidInput)
    );
    assert_eq!(try_open(params(u64::MAX, 1_000, 0)), Some(ErrorCode::MathOverflow));
    // Twenty-one times leverage leaves less than a twentieth as collateral.
    assert_eq!(try_open(params(21_000, 1_000, 0)), Some(ErrorCode::InsufficientCollateral));
    assert_eq!(try_open(params(20_000, 1_000, 0)), None);
}

#[test]
fn a_position_is_valued() {
    let p = open(10_000, 600, 0);
    assert_eq!(
        calculate_position_value(&p, 9_899),
        Ok(PositionValueOutput { current_value: 499, pnl: -101, is_liquidatable: 1 })
    );
    assert_eq!(
        calculate_position_value(&p, 9_900),
        Ok(PositionValueOutput { current_value: 500, pnl: -100, is_liquidatable: 0 })
    );
    let s = open(10_000, 600, 1);
    assert_eq!(
        calculate_position_value(&s, 10_101),
        Ok(PositionValueOutput { current_value: 499, pnl: -101, is_liquidatable: 1 })
    );
    assert_eq!(calculate_position_value(&p, 1 << 63), Err(ErrorCode::InvalidInput));
}

#[test]
fn collateral_is_added() {
    let mut p = open(10_000, 1_000, 0);
    let r = add_collateral(&mut p, &OWNER, AddCollateralPublicParams { collateral: 1_000 }, 200);
    assert_eq!(r, Ok(AddCollateralOutput { new_total_collateral: 2_000, new_leverage: 50_000 }));
    assert_eq!((p.collateral_usd, p.update_time), (2_000, 200));
    let mut expected = open(10_000, 1_000, 0);
    expected.collateral_usd = 2_000;
    expected.update_time = 200;
    assert!(same(&p, &expected));
}

#[test]
fn adding_fails_without_changing_the_record() {
    let mut p = open(10_000, 1_000, 0);
    let add = |p: &mut PositionState, caller, amount| {
        add_collateral(p, caller, AddCollateralPublicParams { collateral: amount }, 200).err()
    };
    assert_eq!(add(&mut p, &STRANGER, 5), Some(ErrorCode::InvalidPositionOwner));
    assert_eq!(add(&mut p, &OWNER, 0), Some(ErrorCode::InvalidInput));
    assert_eq!(add(&mut p, &OWNER, u64::MAX), Some(ErrorCode::MathOverflow));
    assert!(same(&p, &open(10_000, 1_000, 0)));
}

#[test]
fn collateral_is_removed_down_to_the_margin() {
    let mut p = open(10_000, 1_000, 0);
    let r = remove_collateral(&mut p, &OWNER, RemoveCollateralPublicParams { collateral: 500 }, 300);
    assert_eq!(
        r,
        Ok(RemoveCollateralOutput {
            new_collateral: 500,
            removed_amount: 500,
            can_remove: 1,
            new_leverage: 200_000,
        })
    );
    assert_eq!((p.collateral_usd, p.update_time), (500, 300));
    let r = remove_collateral(&mut p, &OWNER, RemoveCollateralPublicParams { collateral: 1 }, 400);
    assert_eq!(r, Err(ErrorCode::InsufficientCollateral));
    assert_eq!((p.collateral_usd, p.update_time), (500, 300));
}

#[test]
fn removing_fails_without_changing_the_record() {
    let mut p = open(10_000, 1_000, 0);
    let remove = |p: &mut PositionState, caller, amount| {
        remove_collateral(p, caller, RemoveCollateralPublicParams { collateral: amount }, 300).err()
    };
    assert_eq!(remove(&mut p, &STRANGER, 5), Some(ErrorCode::InvalidPositionOwner));
    assert_eq!(remove(&mut p, &OWNER, 0), Some(ErrorCode::InvalidInput));
    // More than there is.
    assert_eq!(remove(&mut p, &OWNER, 1_001), Some(ErrorCode::MathOverflow));
    assert_eq!(remove(&mut p, &OWNER, u64::MAX), Some(ErrorCode::MathOverflow));
    // All there is, and more than the margin allows.
    assert_eq!(remove(&mut p, &OWNER, 1_000), Some(ErrorCode::InsufficientCollateral));
    assert_eq!(remove(&mut p, &OWNER, 501), Some(ErrorCode::InsufficientCollateral));
    assert!(same(&p, &open(10_000, 1_000, 0)));
    // A small position asks for no margin, but must keep some collateral.
    let mut small = open(19, 10, 0);
    assert_eq!(remove(&mut small, &OWNER, 10), Some(ErrorCode::InsufficientCollateral));
    assert_eq!(remove(&mut small, &OWNER, 9), None);
    assert_eq!(small.collateral_usd, 1);
}

#[test]
fn a_position_is_closed() {
    let mut p = open(10_000, 1_000, 0);
    let r = close_position(&mut p, &OWNER, 11_000, 500);
    assert_eq!(r, Ok(ClosePositionOutput { realized_pnl: 1_000, final_balance: 2_000, can_close: 1 }));
    assert_eq!((p.size_usd, p.collateral_usd, p.update_time), (0, 0, 500));
    let mut expected = open(10_000, 1_000, 0);
    expected.size_usd = 0;
    expected.collateral_usd = 0;
    expected.update_time = 500;
    assert!(same(&p, &expected));
}

#[test]
fn closing_fails_without_changing_the_record() {
    let mut p = open(10_000, 1_000, 0);
    assert_eq!(close_position(&mut p, &STRANGER, 11_000, 500).err(), Some(ErrorCode::InvalidPositionOwner));
    assert_eq!(close_position(&mut p, &OWNER, 1 << 63, 500).err(), Some(ErrorCode::InvalidInput));
    assert!(same(&p, &open(10_000, 1_000, 0)));
    let mut q = open_position(
        accounts(),
        OpenPositionPublicParams { price: 1, collateral: 100_000, size: 1_000_000, side: 0 },
        &pricing(0, u64::MAX),
        0,
    )
    .unwrap();
    let before = q;
    assert_eq!(close_position(&mut q, &OWNER, 1 << 62, 500).err(), Some(ErrorCode::MathOverflow));
    assert!(same(&q, &before));
}

#[test]
fn a_position_under_the_threshold_is_liquidated() {
    let mut p = open(10_000, 600, 0);
    let r = liquidate(&mut p, 9_899, 600);
    assert_eq!(
        r,
        Ok(LiquidateOutput { is_liquidatable: 1, remaining_collateral: 450, liquidation_penalty: 49 })
    );
    assert_eq!((p.size_usd, p.collateral_usd, p.update_time), (0, 0, 600));
}

#[test]
fn a_position_at_the_threshold_is_not_liquidated() {
    let mut p = open(10_000, 600, 0);
    assert_eq!(liquidate(&mut p, 9_900, 600), Err(ErrorCode::PositionNotLiquidatable));
    assert_eq!(liquidate(&mut p, 1 << 63, 600), Err(ErrorCode::InvalidInput));
    assert!(same(&p, &open(10_000, 600, 0)));
}

#[test]
fn nothing_can_be_done_with_a_position_that_has_ended() {
    let mut closed = open(10_000, 1_000, 0);
    close_position(&mut closed, &OWNER, 11_000, 500).unwrap();
    let mut liquidated = open(10_000, 600, 0);
    liquidate(&mut liquidated, 9_000, 600).unwrap();
    for mut p in [closed, liquidated] {
        let before = p;
        let e = Some(ErrorCode::InvalidMove);
        assert_eq!(calculate_position_value(&p, 10_000).err(), e);
        assert_eq!(add_collateral(&mut p, &OWNER, AddCollateralPublicParams { collateral: 1 }, 9).err(), e);
        assert_eq!(
            remove_collateral(&mut p, &OWNER, RemoveCollateralPublicParams { collateral: 1 }, 9).err(),
            e
        );
        assert_eq!(close_position(&mut p, &OWNER, 10_000, 9).err(), e);
        assert_eq!(liquidate(&mut p, 1, 9).err(), e);
        assert_eq!(
            close_position(&mut p, &STRANGER, 10_000, 9).err(),
            Some(ErrorCode::InvalidPositionOwner)
        );
        assert!(same(&p, &before));
    }
}
