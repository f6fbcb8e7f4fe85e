use amm::curve::{deposit_amounts, swap_amounts, withdraw_amounts, AmountPair, SwapAmounts};
use amm::errors::{AmmError, CurveError, MathError};
use amm::math::{integer_sqrt, mul_div_ceil, mul_div_floor};
use amm::ops::{
    deposit, swap, withdraw, DepositPlan, PoolSnapshot, SwapDirection, SwapPlan, WithdrawPlan,
};
use amm::state::{initialize, PoolState};

fn unlocked_pool(fee: u16) -> PoolState {
    PoolState {
        seed: 1,
        asset_x_id: 10,
        asset_y_id: 11,
        fee_rate_basis_points: fee,
        authority: None,
        locked: false,
    }
}

fn locked_pool(fee: u16) -> PoolState {
    PoolState { locked: true, authority: Some(7), ..unlocked_pool(fee) }
}

#[test]
fn mul_div_floor_exact_and_rounding() {
    assert_eq!(mul_div_floor(6, 7, 2), Ok(21));
    assert_eq!(mul_div_floor(7, 3, 2), Ok(10));
    assert_eq!(mul_div_floor(0, 12345, 9), Ok(0));
    assert_eq!(mul_div_floor(u64::MAX, 2, 2), Ok(u64::MAX));
}

#[test]
fn mul_div_floor_division_by_zero() {
    assert_eq!(mul_div_floor(5, 5, 0), Err(MathError::DivisionByZero));
}

#[test]
fn mul_div_floor_overflow() {
    assert_eq!(mul_div_floor(u64::MAX, u64::MAX, 1), Err(MathError::ArithmeticOverflow));
    assert_eq!(mul_div_floor(u64::MAX, 3, 2), Err(MathError::ArithmeticOverflow));
}

#[test]
fn mul_div_ceil_rounds_up() {
    assert_eq!(mul_div_ceil(7, 3, 2), Ok(11));
    assert_eq!(mul_div_ceil(6, 7, 2), Ok(21));
    assert_eq!(mul_div_ceil(1, 1000, 3), Ok(334));
}

#[test]
fn mul_div_ceil_errors() {
    assert_eq!(mul_div_ceil(5, 5, 0), Err(MathError::DivisionByZero));
    assert_eq!(mul_div_ceil(u64::MAX, 2, 1), Err(MathError::ArithmeticOverflow));
}

#[test]
fn integer_sqrt_values() {
    assert_eq!(integer_sqrt(0), 0);
    assert_eq!(integer_sqrt(1), 1);
    assert_eq!(integer_sqrt(3), 1);
    assert_eq!(integer_sqrt(4), 2);
    assert_eq!(integer_sqrt(15), 3);
    assert_eq!(integer_sqrt(16), 4);
    assert_eq!(integer_sqrt(1_000_000_000_000), 1_000_000);
    assert_eq!(integer_sqrt(u64::MAX), 4_294_967_295);
}

#[test]
fn deposit_amounts_proportional() {
    assert_eq!(
        deposit_amounts(500, 2000, 1000, 100),
        Ok(AmountPair { x: 50, y: 200 })
    );
}

#[test]
fn deposit_amounts_rounds_up_for_the_pool() {
    assert_eq!(
        deposit_amounts(1000, 1000, 3, 1),
        Ok(AmountPair { x: 334, y: 334 })
    );
}

#[test]
fn deposit_amounts_invalid_state() {
    assert_eq!(deposit_amounts(0, 2000, 1000, 100), Err(CurveError::InvalidState));
    assert_eq!(deposit_amounts(500, 0, 1000, 100), Err(CurveError::InvalidState));
}

#[test]
fn deposit_amounts_overflow() {
    assert_eq!(
        deposit_amounts(u64::MAX, u64::MAX, 1, u64::MAX),
        Err(CurveError::ArithmeticOverflow)
    );
}

#[test]
fn withdraw_amounts_proportional_exact() {
    assert_eq!(
        withdraw_amounts(500, 2000, 1000, 100),
        Ok(AmountPair { x: 50, y: 200 })
    );
}

#[test]
fn withdraw_amounts_rounds_down_for_the_pool() {
    assert_eq!(withdraw_amounts(14, 10, 4, 1), Ok(AmountPair { x: 3, y: 2 }));
}

#[test]
fn withdraw_amounts_invalid_state() {
    assert_eq!(withdraw_amounts(500, 2000, 0, 100), Err(CurveError::InvalidState));
    assert_eq!(withdraw_amounts(500, 2000, 1000, 1001), Err(CurveError::InvalidState));
}

#[test]
fn swap_amounts_example() {
    assert_eq!(
        swap_amounts(1000, 1000, 100, 30),
        Ok(SwapAmounts { amount_in: 100, amount_out: 90 })
    );
}

#[test]
fn swap_amounts_zero_fee() {
    assert_eq!(
        swap_amounts(1000, 1000, 10, 0),
        Ok(SwapAmounts { amount_in: 10, amount_out: 9 })
    );
}

#[test]
fn swap_amounts_zero_result() {
    assert_eq!(swap_amounts(1000, 1000, 1, 30), Err(CurveError::ZeroResult));
}

#[test]
fn swap_amounts_division_by_zero() {
    assert_eq!(swap_amounts(0, 1000, 1, 30), Err(CurveError::DivisionByZero));
}

#[test]
fn swap_amounts_overflow() {
    assert_eq!(swap_amounts(u64::MAX, 1000, 1, 0), Err(CurveError::ArithmeticOverflow));
}

#[test]
fn swap_grows_reserve_product() {
    let before = 1000u128 * 1000u128;
    let res = swap_amounts(1000, 1000, 100, 30).unwrap();
    let after =
        (1000u128 + res.amount_in as u128) * (1000u128 - res.amount_out as u128);
    assert!(after > before);
    assert_eq!(after, 1_001_000);
}

#[test]
fn bootstrap_deposit_takes_the_maxima() {
    let state = unlocked_pool(30);
    let snap = PoolSnapshot { reserve_x: 0, reserve_y: 0, share_supply: 0 };
    assert_eq!(
        deposit(&state, snap, 1_000_000, 5000, 7000),
        Ok(DepositPlan { deposit_x: 5000, deposit_y: 7000, minted_shares: 1_000_000 })
    );
}

#[test]
fn bootstrap_deposit_ignores_the_lock() {
    let state = locked_pool(30);
    let snap = PoolSnapshot { reserve_x: 0, reserve_y: 0, share_supply: 0 };
    assert_eq!(
        deposit(&state, snap, 1000, 10, 20),
        Ok(DepositPlan { deposit_x: 10, deposit_y: 20, minted_shares: 1000 })
    );
}

#[test]
fn deposit_on_locked_pool_succeeds() {
    let state = locked_pool(30);
    let snap = PoolSnapshot { reserve_x: 500, reserve_y: 2000, share_supply: 1000 };
    assert_eq!(
        deposit(&state, snap, 100, 50, 200),
        Ok(DepositPlan { deposit_x: 50, deposit_y: 200, minted_shares: 100 })
    );
}

#[test]
fn deposit_slippage_exceeded() {
    let state = unlocked_pool(30);
    let snap = PoolSnapshot { reserve_x: 500, reserve_y: 2000, share_supply: 1000 };
    assert_eq!(deposit(&state, snap, 100, 49, 200), Err(AmmError::SlippageExceeded));
    assert_eq!(deposit(&state, snap, 100, 50, 199), Err(AmmError::SlippageExceeded));
}

#[test]
fn deposit_inconsistent_reserves() {
    let state = unlocked_pool(30);
    let snap = PoolSnapshot { reserve_x: 0, reserve_y: 2000, share_supply: 1000 };
    assert_eq!(
        deposit(&state, snap, 100, 50, 200),
        Err(AmmError::Curve(CurveError::InvalidState))
    );
}

#[test]
fn withdraw_example() {
    let state = unlocked_pool(30);
    let snap = PoolSnapshot { reserve_x: 500, reserve_y: 2000, share_supply: 1000 };
    assert_eq!(
        withdraw(&state, snap, 100, 50, 200),
        Ok(WithdrawPlan { withdraw_x: 50, withdraw_y: 200, burned_shares: 100 })
    );
}

#[test]
fn withdraw_locked() {
    let state = locked_pool(30);
    let snap = PoolSnapshot { reserve_x: 500, reserve_y: 2000, share_supply: 1000 };
    assert_eq!(withdraw(&state, snap, 100, 50, 200), Err(AmmError::PoolLocked));
}

#[test]
fn withdraw_invalid_amounts() {
    let state = unlocked_pool(30);
    let snap = PoolSnapshot { reserve_x: 500, reserve_y: 2000, share_supply: 1000 };
    assert_eq!(withdraw(&state, snap, 0, 50, 200), Err(AmmError::InvalidAmount));
    assert_eq!(withdraw(&state, snap, 100, 0, 0), Err(AmmError::InvalidAmount));
}

#[test]
fn withdraw_slippage_exceeded() {
    let state = unlocked_pool(30);
    let snap = PoolSnapshot { reserve_x: 500, reserve_y: 2000, share_supply: 1000 };
    assert_eq!(withdraw(&state, snap, 100, 51, 200), Err(AmmError::SlippageExceeded));
    assert_eq!(withdraw(&state, snap, 100, 50, 201), Err(AmmError::SlippageExceeded));
}

#[test]
fn withdraw_more_shares_than_exist() {
    let state = unlocked_pool(30);
    let snap = PoolSnapshot { reserve_x: 500, reserve_y: 2000, share_supply: 1000 };
    assert_eq!(
        withdraw(&state, snap, 1001, 1, 1),
        Err(AmmError::Curve(CurveError::InvalidState))
    );
}

#[test]
fn swap_example_meets_its_floor() {
    let state = unlocked_pool(30);
    let snap = PoolSnapshot { reserve_x: 1000, reserve_y: 1000, share_supply: 1000 };
    assert_eq!(
        swap(&state, snap, SwapDirection::XIn, 100, 90),
        Ok(SwapPlan { direction: SwapDirection::XIn, amount_in: 100, amount_out: 90 })
    );
    assert_eq!(
        swap(&state, snap, SwapDirection::XIn, 100, 91),
        Err(AmmError::SlippageExceeded)
    );
}

#[test]
fn swap_selects_reserves_by_direction() {
    let state = unlocked_pool(0);
    let snap = PoolSnapshot { reserve_x: 500, reserve_y: 2000, share_supply: 1000 };
    // Selling Y: in-reserve 2000, out-reserve 500 -> floor(100*500/2100) = 23.
    assert_eq!(
        swap(&state, snap, SwapDirection::YIn, 100, 0),
        Ok(SwapPlan { direction: SwapDirection::YIn, amount_in: 100, amount_out: 23 })
    );
}

#[test]
fn swap_locked() {
    let state = locked_pool(30);
    let snap = PoolSnapshot { reserve_x: 1000, reserve_y: 1000, share_supply: 1000 };
    assert_eq!(
        swap(&state, snap, SwapDirection::XIn, 100, 90),
        Err(AmmError::PoolLocked)
    );
}

#[test]
fn swap_zero_amount() {
    let state = unlocked_pool(30);
    let snap = PoolSnapshot { reserve_x: 1000, reserve_y: 1000, share_supply: 1000 };
    assert_eq!(
        swap(&state, snap, SwapDirection::XIn, 0, 0),
        Err(AmmError::InvalidAmount)
    );
}

#[test]
fn swap_no_op_trade_rejected() {
    let state = unlocked_pool(30);
    let snap = PoolSnapshot { reserve_x: 1000, reserve_y: 1000, share_supply: 1000 };
    assert_eq!(
        swap(&state, snap, SwapDirection::XIn, 1, 0),
        Err(AmmError::Curve(CurveError::ZeroResult))
    );
}

#[test]
fn deposit_then_withdraw_returns_no_more() {
    let state = unlocked_pool(30);
    let snap = PoolSnapshot { reserve_x: 10, reserve_y: 14, share_supply: 3 };
    let dep = deposit(&state, snap, 1, u64::MAX, u64::MAX).unwrap();
    assert_eq!(dep, DepositPlan { deposit_x: 4, deposit_y: 5, minted_shares: 1 });
    let after = PoolSnapshot {
        reserve_x: snap.reserve_x + dep.deposit_x,
        reserve_y: snap.reserve_y + dep.deposit_y,
        share_supply: snap.share_supply + 1,
    };
    let wd = withdraw(&state, after, 1, 1, 1).unwrap();
    assert!(wd.withdraw_x <= dep.deposit_x);
    assert!(wd.withdraw_y <= dep.deposit_y);
    assert_eq!(wd, WithdrawPlan { withdraw_x: 3, withdraw_y: 4, burned_shares: 1 });
}

#[test]
fn initialize_builds_the_record() {
    let state = initialize(42, 10, 11, 9999, Some(7)).unwrap();
    assert_eq!(
        state,
        PoolState {
            seed: 42,
            asset_x_id: 10,
            asset_y_id: 11,
            fee_rate_basis_points: 9999,
            authority: Some(7),
            locked: false,
        }
    );
}

#[test]
fn initialize_rejects_a_full_fee() {
    assert_eq!(initialize(42, 10, 11, 10000, None), Err(AmmError::InvalidFee));
    assert_eq!(initialize(42, 10, 11, u16::MAX, None), Err(AmmError::InvalidFee));
}
