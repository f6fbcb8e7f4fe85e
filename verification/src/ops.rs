//! The three mutating pool operations: deposit, withdraw, swap.
//!
//! Each operation validates the request against the pool record and a
//! live snapshot of the reserves and share supply, runs the curve, checks
//! the caller's slippage bounds, and returns a plan: the exact asset
//! movements the host must perform, in order, within one atomic unit of
//! work. On any failure no plan is returned and nothing may move.

use vstd::prelude::*;

use crate::curve;
use crate::curve::{
    lemma_deposit_then_withdraw_le, lemma_proportion_le, spec_effective_in,
    spec_share_of_reserve_ceil, spec_share_of_reserve_floor, spec_swap_out,
};
use crate::errors::{AmmError, CurveError};
use crate::math::lemma_ceil_div_nonneg;
use crate::state::PoolState;
use vstd::arithmetic::mul::lemma_mul_nonnegative;

verus! {

/// A point-in-time snapshot of the live pool figures, read from the host
/// at the start of an operation: the two custody balances and the
/// outstanding pool-share supply.
#[derive(Clone, Copy, Debug, PartialEq, Eq, Structural)]
pub struct PoolSnapshot {
    pub reserve_x: u64,
    pub reserve_y: u64,
    pub share_supply: u64,
}

impl PoolSnapshot {
    /// The bootstrapping trigger: no shares outstanding and no reserves.
    pub open spec fn spec_is_empty(self) -> bool {
        self.share_supply == 0 && self.reserve_x == 0 && self.reserve_y == 0
    }

    /// A healthy pool has shares outstanding exactly while it holds
    /// reserves: a zero share supply only ever stands against zero
    /// reserves.
    pub open spec fn consistent(self) -> bool {
        self.share_supply == 0 ==> self.reserve_x == 0 && self.reserve_y == 0
    }

    /// Whether the pool is empty and the next deposit bootstraps it.
    pub fn is_empty(&self) -> (r: bool)
        ensures
            r == self.spec_is_empty(),
    {
        self.share_supply == 0 && self.reserve_x == 0 && self.reserve_y == 0
    }
}

/// A successful deposit instructs the host to perform, in this order:
/// transfer `deposit_x` of asset X from the depositor to the pool's X
/// custody, transfer `deposit_y` of asset Y likewise, then mint
/// `minted_shares` pool-share tokens to the depositor.
#[derive(Clone, Copy, Debug, PartialEq, Eq, Structural)]
pub struct DepositPlan {
    pub deposit_x: u64,
    pub deposit_y: u64,
    pub minted_shares: u64,
}

/// A successful withdrawal instructs the host to perform, in this order:
/// transfer `withdraw_x` of asset X from the pool's X custody to the
/// withdrawer, transfer `withdraw_y` of asset Y likewise, then burn
/// `burned_shares` pool-share tokens from the withdrawer.
#[derive(Clone, Copy, Debug, PartialEq, Eq, Structural)]
pub struct WithdrawPlan {
    pub withdraw_x: u64,
    pub withdraw_y: u64,
    pub burned_shares: u64,
}

/// Which asset a swap sells into the pool.
#[derive(Clone, Copy, Debug, PartialEq, Eq, Structural)]
pub enum SwapDirection {
    XIn,
    YIn,
}

/// A successful swap instructs the host to perform, in this order:
/// transfer `amount_in` of the sold asset from the trader to its custody,
/// then transfer `amount_out` of the bought asset from its custody to the
/// trader.
#[derive(Clone, Copy, Debug, PartialEq, Eq, Structural)]
pub struct SwapPlan {
    pub direction: SwapDirection,
    pub amount_in: u64,
    pub amount_out: u64,
}

/// The input and output reserves a swap prices against, selected by the
/// direction of the trade.
pub open spec fn spec_reserves_for(snap: PoolSnapshot, direction: SwapDirection) -> (int, int) {
    match direction {
        SwapDirection::XIn => (snap.reserve_x as int, snap.reserve_y as int),
        SwapDirection::YIn => (snap.reserve_y as int, snap.reserve_x as int),
    }
}

/// What `deposit` returns, case by case. A deposit into an empty pool
/// takes the caller's maxima as the initial reserves; otherwise the curve
/// computes the proportional contributions and each must stay within its
/// cap. The pool record plays no part: deposits ignore the lock.
pub open spec fn spec_deposit(
    state: PoolState,
    snap: PoolSnapshot,
    requested_shares: u64,
    max_x: u64,
    max_y: u64,
) -> Result<DepositPlan, AmmError> {
    if snap.spec_is_empty() {
        Ok(DepositPlan { deposit_x: max_x, deposit_y: max_y, minted_shares: requested_shares })
    } else if snap.reserve_x == 0 || snap.reserve_y == 0 {
        Err(AmmError::Curve(CurveError::InvalidState))
    } else {
        let dx = spec_share_of_reserve_ceil(
            requested_shares as int,
            snap.reserve_x as int,
            snap.share_supply as int,
        );
        let dy = spec_share_of_reserve_ceil(
            requested_shares as int,
            snap.reserve_y as int,
            snap.share_supply as int,
        );
        if dx > u64::MAX || dy > u64::MAX {
            Err(AmmError::Curve(CurveError::ArithmeticOverflow))
        } else if dx > max_x || dy > max_y {
            Err(AmmError::SlippageExceeded)
        } else {
            Ok(DepositPlan {
                deposit_x: dx as u64,
                deposit_y: dy as u64,
                minted_shares: requested_shares,
            })
        }
    }
}

/// What `withdraw` returns, case by case: the lock, then the magnitude
/// checks, then the curve, then the slippage floors.
pub open spec fn spec_withdraw(
    state: PoolState,
    snap: PoolSnapshot,
    burned_shares: u64,
    min_x: u64,
    min_y: u64,
) -> Result<WithdrawPlan, AmmError> {
    if state.locked {
        Err(AmmError::PoolLocked)
    } else if burned_shares == 0 || (min_x == 0 && min_y == 0) {
        Err(AmmError::InvalidAmount)
    } else if snap.share_supply == 0 || burned_shares > snap.share_supply {
        Err(AmmError::Curve(CurveError::InvalidState))
    } else {
        let wx = spec_share_of_reserve_floor(
            burned_shares as int,
            snap.reserve_x as int,
            snap.share_supply as int,
        );
        let wy = spec_share_of_reserve_floor(
            burned_shares as int,
            snap.reserve_y as int,
            snap.share_supply as int,
        );
        if wx < min_x || wy < min_y {
            Err(AmmError::SlippageExceeded)
        } else {
            Ok(WithdrawPlan { withdraw_x: wx as u64, withdraw_y: wy as u64, burned_shares })
        }
    }
}

/// What `swap` returns, case by case: the lock, then the magnitude check,
/// then the curve on the reserves the direction selects, then the
/// slippage floor.
pub open spec fn spec_swap(
    state: PoolState,
    snap: PoolSnapshot,
    direction: SwapDirection,
    amount_in: u64,
    min_out: u64,
) -> Result<SwapPlan, AmmError> {
    if state.locked {
        Err(AmmError::PoolLocked)
    } else if amount_in == 0 {
        Err(AmmError::InvalidAmount)
    } else {
        let r_in = spec_reserves_for(snap, direction).0;
        let r_out = spec_reserves_for(snap, direction).1;
        let eff = spec_effective_in(amount_in as int, state.fee_rate_basis_points as int);
        if r_in + eff > u64::MAX {
            Err(AmmError::Curve(CurveError::ArithmeticOverflow))
        } else if r_in + eff == 0 {
            Err(AmmError::Curve(CurveError::DivisionByZero))
        } else {
            let out = spec_swap_out(r_in, r_out, eff);
            if out == 0 {
                Err(AmmError::Curve(CurveError::ZeroResult))
            } else if out < min_out {
                Err(AmmError::SlippageExceeded)
            } else {
                Ok(SwapPlan { direction, amount_in, amount_out: out as u64 })
            }
        }
    }
}

/// Computes how much of each asset a depositor must provide to receive
/// `requested_shares`, bounded by the caller's slippage ceilings `max_x` /
/// `max_y`, and returns the movements the host must perform.
///
/// Deposits do not check the lock: liquidity may be added even to a
/// locked pool.
pub fn deposit(
    state: &PoolState,
    snap: PoolSnapshot,
    requested_shares: u64,
    max_x: u64,
    max_y: u64,
) -> (r: Result<DepositPlan, AmmError>)
    requires
        requested_shares > 0,
        snap.consistent(),
    ensures
        r == spec_deposit(*state, snap, requested_shares, max_x, max_y),
{
    let (x, y) = if snap.is_empty() {
        (max_x, max_y)
    } else {
        match curve::deposit_amounts(
            snap.reserve_x,
            snap.reserve_y,
            snap.share_supply,
            requested_shares,
        ) {
            Ok(pair) => (pair.x, pair.y),
            Err(e) => {
                return Err(AmmError::Curve(e));
            },
        }
    };
    if x > max_x || y > max_y {
        return Err(AmmError::SlippageExceeded);
    }
    Ok(DepositPlan { deposit_x: x, deposit_y: y, minted_shares: requested_shares })
}

/// Computes how much of each asset burning `burned_shares` redeems,
/// bounded below by the caller's slippage floors `min_x` / `min_y` (at
/// least one of which must be nonzero), and returns the movements the
/// host must perform. Fails with `PoolLocked` while the pool is locked.
pub fn withdraw(
    state: &PoolState,
    snap: PoolSnapshot,
    burned_shares: u64,
    min_x: u64,
    min_y: u64,
) -> (r: Result<WithdrawPlan, AmmError>)
    ensures
        r == spec_withdraw(*state, snap, burned_shares, min_x, min_y),
{
    if state.locked {
        return Err(AmmError::PoolLocked);
    }
    if burned_shares == 0 {
        return Err(AmmError::InvalidAmount);
    }
    if min_x == 0 && min_y == 0 {
        return Err(AmmError::InvalidAmount);
    }
    let amounts = match curve::withdraw_amounts(
        snap.reserve_x,
        snap.reserve_y,
        snap.share_supply,
        burned_shares,
    ) {
        Ok(pair) => pair,
        Err(e) => {
            return Err(AmmError::Curve(e));
        },
    };
    if amounts.x < min_x || amounts.y < min_y {
        return Err(AmmError::SlippageExceeded);
    }
    Ok(WithdrawPlan { withdraw_x: amounts.x, withdraw_y: amounts.y, burned_shares })
}

/// Prices `amount_in` of the sold asset against the reserves the
/// direction selects, bounded below by the caller's slippage floor
/// `min_out`, and returns the movements the host must perform. Fails with
/// `PoolLocked` while the pool is locked.
pub fn swap(
    state: &PoolState,
    snap: PoolSnapshot,
    direction: SwapDirection,
    amount_in: u64,
    min_out: u64,
) -> (r: Result<SwapPlan, AmmError>)
    requires
        state.well_formed(),
    ensures
        r == spec_swap(*state, snap, direction, amount_in, min_out),
{
    if state.locked {
        return Err(AmmError::PoolLocked);
    }
    if amount_in == 0 {
        return Err(AmmError::InvalidAmount);
    }
    let (reserve_in, reserve_out) = match direction {
        SwapDirection::XIn => (snap.reserve_x, snap.reserve_y),
        SwapDirection::YIn => (snap.reserve_y, snap.reserve_x),
    };
    let res = match curve::swap_amounts(
        reserve_in,
        reserve_out,
        amount_in,
        state.fee_rate_basis_points,
    ) {
        Ok(s) => s,
        Err(e) => {
            return Err(AmmError::Curve(e));
        },
    };
    if res.amount_in == 0 || res.amount_out == 0 {
        return Err(AmmError::InvalidAmount);
    }
    if res.amount_out < min_out {
        return Err(AmmError::SlippageExceeded);
    }
    Ok(SwapPlan { direction, amount_in: res.amount_in, amount_out: res.amount_out })
}

/// Law: a deposit into an empty pool always takes exactly the caller's
/// maxima as the initial reserves and mints exactly the requested shares,
/// independent of any curve computation. The first deposit defines the
/// initial price ratio.
pub proof fn lemma_bootstrap_determinism(
    state: PoolState,
    snap: PoolSnapshot,
    requested_shares: u64,
    max_x: u64,
    max_y: u64,
)
    requires
        snap.spec_is_empty(),
    ensures
        spec_deposit(state, snap, requested_shares, max_x, max_y) == Ok::<DepositPlan, AmmError>(
            (DepositPlan { deposit_x: max_x, deposit_y: max_y, minted_shares: requested_shares }),
        ),
{
}

/// Law: deposits read nothing from the pool record, so they are
/// unaffected by the lock flag (and by every other field of the record).
pub proof fn lemma_deposit_ignores_lock(
    a: PoolState,
    b: PoolState,
    snap: PoolSnapshot,
    requested_shares: u64,
    max_x: u64,
    max_y: u64,
)
    ensures
        spec_deposit(a, snap, requested_shares, max_x, max_y) == spec_deposit(
            b,
            snap,
            requested_shares,
            max_x,
            max_y,
        ),
{
}

/// Law: while the pool is locked, every swap and every withdrawal fails
/// with `PoolLocked`, whatever its arguments.
pub proof fn lemma_lock_enforcement(
    state: PoolState,
    snap: PoolSnapshot,
    direction: SwapDirection,
    amount_in: u64,
    min_out: u64,
    burned_shares: u64,
    min_x: u64,
    min_y: u64,
)
    requires
        state.locked,
    ensures
        spec_swap(state, snap, direction, amount_in, min_out) == Err::<SwapPlan, AmmError>(
            AmmError::PoolLocked,
        ),
        spec_withdraw(state, snap, burned_shares, min_x, min_y) == Err::<WithdrawPlan, AmmError>(
            AmmError::PoolLocked,
        ),
{
}

/// Law: a deposit into a non-empty pool fails with `SlippageExceeded`
/// exactly when a computed contribution exceeds its cap (and both
/// contributions are representable).
pub proof fn lemma_deposit_slippage(
    state: PoolState,
    snap: PoolSnapshot,
    requested_shares: u64,
    max_x: u64,
    max_y: u64,
)
    requires
        !snap.spec_is_empty(),
        snap.reserve_x > 0,
        snap.reserve_y > 0,
        spec_share_of_reserve_ceil(
            requested_shares as int,
            snap.reserve_x as int,
            snap.share_supply as int,
        ) <= u64::MAX,
        spec_share_of_reserve_ceil(
            requested_shares as int,
            snap.reserve_y as int,
            snap.share_supply as int,
        ) <= u64::MAX,
        spec_share_of_reserve_ceil(
            requested_shares as int,
            snap.reserve_x as int,
            snap.share_supply as int,
        ) > max_x || spec_share_of_reserve_ceil(
            requested_shares as int,
            snap.reserve_y as int,
            snap.share_supply as int,
        ) > max_y,
    ensures
        spec_deposit(state, snap, requested_shares, max_x, max_y) == Err::<DepositPlan, AmmError>(
            AmmError::SlippageExceeded,
        ),
{
}

/// Law: an unlocked withdrawal of a valid share amount fails with
/// `SlippageExceeded` exactly when a computed redemption falls below its
/// floor.
pub proof fn lemma_withdraw_slippage(
    state: PoolState,
    snap: PoolSnapshot,
    burned_shares: u64,
    min_x: u64,
    min_y: u64,
)
    requires
        !state.locked,
        burned_shares > 0,
        !(min_x == 0 && min_y == 0),
        0 < burned_shares <= snap.share_supply,
        spec_share_of_reserve_floor(
            burned_shares as int,
            snap.reserve_x as int,
            snap.share_supply as int,
        ) < min_x || spec_share_of_reserve_floor(
            burned_shares as int,
            snap.reserve_y as int,
            snap.share_supply as int,
        ) < min_y,
    ensures
        spec_withdraw(state, snap, burned_shares, min_x, min_y) == Err::<WithdrawPlan, AmmError>(
            AmmError::SlippageExceeded,
        ),
{
}

/// Law: an unlocked swap whose computed output is positive fails with
/// `SlippageExceeded` exactly when that output falls below the caller's
/// floor.
pub proof fn lemma_swap_slippage(
    state: PoolState,
    snap: PoolSnapshot,
    direction: SwapDirection,
    amount_in: u64,
    min_out: u64,
)
    requires
        !state.locked,
        amount_in > 0,
        ({
            let r_in = spec_reserves_for(snap, direction).0;
            let r_out = spec_reserves_for(snap, direction).1;
            let eff = spec_effective_in(amount_in as int, state.fee_rate_basis_points as int);
            &&& 0 < r_in + eff <= u64::MAX
            &&& 0 < spec_swap_out(r_in, r_out, eff) < min_out
        }),
    ensures
        spec_swap(state, snap, direction, amount_in, min_out) == Err::<SwapPlan, AmmError>(
            AmmError::SlippageExceeded,
        ),
{
}

/// Law: every swap that goes through on a pool with a positive fee and a
/// live input reserve strictly grows the product of the reserves: the
/// gross input enters one reserve while the output leaves the other, and
/// the retained fee makes the growth strict.
pub proof fn lemma_swap_grows_reserve_product(
    state: PoolState,
    snap: PoolSnapshot,
    direction: SwapDirection,
    amount_in: u64,
    min_out: u64,
    plan: SwapPlan,
)
    requires
        state.well_formed(),
        state.fee_rate_basis_points > 0,
        spec_reserves_for(snap, direction).0 > 0,
        spec_swap(state, snap, direction, amount_in, min_out) == Ok::<SwapPlan, AmmError>(plan),
    ensures
        ({
            let r_in = spec_reserves_for(snap, direction).0;
            let r_out = spec_reserves_for(snap, direction).1;
            (r_in + plan.amount_in) * (r_out - plan.amount_out) > r_in * r_out
        }),
{
    let r_in = spec_reserves_for(snap, direction).0;
    let r_out = spec_reserves_for(snap, direction).1;
    let fee = state.fee_rate_basis_points as int;
    let eff = spec_effective_in(amount_in as int, fee);
    let out = spec_swap_out(r_in, r_out, eff);
    lemma_mul_nonnegative(amount_in as int, 10000 - fee);
    vstd::arithmetic::div_mod::lemma_div_pos_is_pos(amount_in as int * (10000 - fee), 10000);
    lemma_proportion_le(eff, r_in + eff, r_out);
    assert(plan.amount_in == amount_in && plan.amount_out == out);
    crate::curve::lemma_swap_invariant_growth(r_in, r_out, amount_in as int, fee);
}

/// Law: a deposit followed immediately by a withdrawal of the same number
/// of shares, on an unlocked, non-empty, consistent pool with no
/// intervening operation, returns at most the deposited amounts: the
/// rounding of both legs favors the pool.
pub proof fn lemma_deposit_withdraw_proportionality(
    state: PoolState,
    snap: PoolSnapshot,
    shares: u64,
    max_x: u64,
    max_y: u64,
    snap_after: PoolSnapshot,
    min_x: u64,
    min_y: u64,
    dplan: DepositPlan,
    wplan: WithdrawPlan,
)
    requires
        shares > 0,
        snap.consistent(),
        !snap.spec_is_empty(),
        spec_deposit(state, snap, shares, max_x, max_y) == Ok::<DepositPlan, AmmError>(dplan),
        snap_after.reserve_x == snap.reserve_x + dplan.deposit_x,
        snap_after.reserve_y == snap.reserve_y + dplan.deposit_y,
        snap_after.share_supply == snap.share_supply + shares,
        spec_withdraw(state, snap_after, shares, min_x, min_y) == Ok::<WithdrawPlan, AmmError>(
            wplan,
        ),
    ensures
        wplan.withdraw_x <= dplan.deposit_x,
        wplan.withdraw_y <= dplan.deposit_y,
{
    let supply = snap.share_supply as int;
    let dx = spec_share_of_reserve_ceil(shares as int, snap.reserve_x as int, supply);
    let dy = spec_share_of_reserve_ceil(shares as int, snap.reserve_y as int, supply);
    lemma_mul_nonnegative(shares as int, snap.reserve_x as int);
    lemma_mul_nonnegative(shares as int, snap.reserve_y as int);
    lemma_ceil_div_nonneg(shares as int * snap.reserve_x as int, supply);
    lemma_ceil_div_nonneg(shares as int * snap.reserve_y as int, supply);
    assert(dplan.deposit_x == dx && dplan.deposit_y == dy);
    lemma_deposit_then_withdraw_le(snap.reserve_x as int, supply, shares as int);
    lemma_deposit_then_withdraw_le(snap.reserve_y as int, supply, shares as int);
    lemma_proportion_le(shares as int, supply + shares as int, snap_after.reserve_x as int);
    lemma_proportion_le(shares as int, supply + shares as int, snap_after.reserve_y as int);
}

} // verus!
