//! The constant-product curve: stateless computations over reserves and
//! share supply.
//!
//! Deposits contribute to both reserves in proportion to the share of the
//! pool the depositor will hold, rounded up (in the pool's favor).
//! Withdrawals redeem shares proportionally, rounded down (in the pool's
//! favor). Swaps price the output so that the product of the reserves never
//! decreases; the fee is retained on the input side and stays in the pool,
//! which is what grows the product over time.

use vstd::prelude::*;

use vstd::arithmetic::div_mod::{
    lemma_div_is_ordered, lemma_div_multiples_vanish, lemma_div_pos_is_pos,
    lemma_fundamental_div_mod, lemma_fundamental_div_mod_converse_div, lemma_mod_bound,
};
use vstd::arithmetic::mul::{
    lemma_mul_inequality, lemma_mul_is_commutative, lemma_mul_nonnegative,
};

use crate::errors::CurveError;
use crate::math::{ceil_div, mul_div_ceil, mul_div_floor};

verus! {

/// A pair of asset amounts, one per pooled asset.
#[derive(Clone, Copy, Debug, PartialEq, Eq, Structural)]
pub struct AmountPair {
    pub x: u64,
    pub y: u64,
}

/// The two legs of a swap: the gross amount debited from the trader
/// (fee included) and the amount credited to the trader.
#[derive(Clone, Copy, Debug, PartialEq, Eq, Structural)]
pub struct SwapAmounts {
    pub amount_in: u64,
    pub amount_out: u64,
}

/// The share of `reserve` owed for `shares` out of `supply`, rounded up.
pub open spec fn spec_share_of_reserve_ceil(shares: int, reserve: int, supply: int) -> int {
    ceil_div(shares * reserve, supply)
}

/// The share of `reserve` owed for `shares` out of `supply`, rounded down.
pub open spec fn spec_share_of_reserve_floor(shares: int, reserve: int, supply: int) -> int {
    (shares * reserve) / supply
}

/// The part of a swap's input that prices the trade: the gross input less
/// the fee, which is given in basis points (10000 basis points = 100%).
pub open spec fn spec_effective_in(amount_in: int, fee_rate_basis_points: int) -> int {
    amount_in * (10000 - fee_rate_basis_points) / 10000
}

/// The swap output under the constant-product rule: the amount that can
/// leave the output reserve so that the product of the reserves does not
/// shrink when `effective_in` enters the input reserve.
pub open spec fn spec_swap_out(reserve_in: int, reserve_out: int, effective_in: int) -> int {
    (effective_in * reserve_out) / (reserve_in + effective_in)
}

/// Rounding up never loses: `ceil_div(a, d) * d >= a`.
pub proof fn lemma_ceil_div_mul_ge(a: int, d: int)
    requires
        0 < d,
    ensures
        ceil_div(a, d) * d >= a,
{
    let q = (a + d - 1) / d;
    lemma_fundamental_div_mod(a + d - 1, d);
    lemma_mod_bound(a + d - 1, d);
    assert(d * q >= a);
    lemma_mul_is_commutative(d, q);
}

/// A proportional cut rounded down stays within the whole: for
/// `0 <= part <= whole`, `part * reserve / whole` lies in `[0, reserve]`.
pub proof fn lemma_proportion_le(part: int, whole: int, reserve: int)
    requires
        0 <= part <= whole,
        0 < whole,
        0 <= reserve,
    ensures
        0 <= (part * reserve) / whole <= reserve,
{
    lemma_mul_nonnegative(part, reserve);
    lemma_div_pos_is_pos(part * reserve, whole);
    lemma_mul_inequality(part, whole, reserve);
    lemma_div_is_ordered(part * reserve, whole * reserve, whole);
    lemma_div_multiples_vanish(reserve, whole);
}

/// Law: a deposit followed immediately by a withdrawal of the same number
/// of shares returns at most what was deposited. The deposit leg rounds up
/// and the withdrawal leg rounds down, so the rounding of both legs favors
/// the pool. The statement covers one reserve; it applies to each of the
/// two symmetrically.
pub proof fn lemma_deposit_then_withdraw_le(reserve: int, supply: int, shares: int)
    requires
        0 <= reserve,
        0 < supply,
        0 < shares,
    ensures
        ({
            let deposited = spec_share_of_reserve_ceil(shares, reserve, supply);
            spec_share_of_reserve_floor(shares, reserve + deposited, supply + shares) <= deposited
        }),
{
    let d = spec_share_of_reserve_ceil(shares, reserve, supply);
    lemma_ceil_div_mul_ge(shares * reserve, supply);
    assert(shares * reserve <= d * supply);
    assert(shares * (reserve + d) <= d * (supply + shares)) by (nonlinear_arith)
        requires
            shares * reserve <= d * supply,
    ;
    lemma_div_is_ordered(shares * (reserve + d), d * (supply + shares), supply + shares);
    lemma_mul_is_commutative(d, supply + shares);
    lemma_div_multiples_vanish(d, supply + shares);
}

/// Law: a swap with a positive fee and a nonzero output strictly grows the
/// product of the reserves. The gross input (fee included) enters the input
/// reserve while the output is priced on the input net of fee, so the pool
/// keeps the difference.
pub proof fn lemma_swap_invariant_growth(
    reserve_in: int,
    reserve_out: int,
    amount_in: int,
    fee_rate_basis_points: int,
)
    requires
        0 < reserve_in,
        0 <= reserve_out,
        0 < amount_in,
        0 < fee_rate_basis_points < 10000,
        spec_swap_out(
            reserve_in,
            reserve_out,
            spec_effective_in(amount_in, fee_rate_basis_points),
        ) > 0,
    ensures
        ({
            let out = spec_swap_out(
                reserve_in,
                reserve_out,
                spec_effective_in(amount_in, fee_rate_basis_points),
            );
            (reserve_in + amount_in) * (reserve_out - out) > reserve_in * reserve_out
        }),
{
    let f = fee_rate_basis_points;
    let a = amount_in;
    let e = spec_effective_in(a, f);
    let den = reserve_in + e;
    let out = spec_swap_out(reserve_in, reserve_out, e);

    // 0 <= e <= a - 1: the fee eats at least one unit of the gross input.
    lemma_mul_nonnegative(a, 10000 - f);
    lemma_div_pos_is_pos(a * (10000 - f), 10000);
    lemma_mul_inequality(10000 - f, 9999, a);
    lemma_mul_is_commutative(a, 10000 - f);
    assert(a * (10000 - f) <= 10000 * a - 1);
    lemma_div_is_ordered(a * (10000 - f), 10000 * a - 1, 10000);
    assert(10000 * a - 1 == (a - 1) * 10000 + 9999);
    lemma_fundamental_div_mod_converse_div(10000 * a - 1, 10000, a - 1, 9999);
    assert(e <= a - 1);

    // den * out <= e * reserve_out: the definition of flooring.
    lemma_mul_nonnegative(e, reserve_out);
    lemma_fundamental_div_mod(e * reserve_out, den);
    lemma_mod_bound(e * reserve_out, den);
    assert(den * out <= e * reserve_out);

    // A nonzero output needs a nonzero effective input and output reserve.
    assert(e >= 1 && reserve_out >= 1) by (nonlinear_arith)
        requires
            den > 0,
            out >= 1,
            den * out <= e * reserve_out,
            e >= 0,
            reserve_out >= 0,
    ;

    // The output never drains the reserve while the input reserve is live.
    assert(out < reserve_out) by (nonlinear_arith)
        requires
            den * out <= e * reserve_out,
            e <= den - 1,
            den > 0,
            reserve_out >= 1,
            out >= 0,
    ;

    // Pricing on the effective input alone already preserves the product.
    assert((reserve_in + e) * (reserve_out - out) >= reserve_in * reserve_out)
        by (nonlinear_arith)
        requires
            den == reserve_in + e,
            den * out <= e * reserve_out,
    ;

    // The extra fee unit entering the reserve makes the growth strict.
    assert((reserve_in + a) * (reserve_out - out) > reserve_in * reserve_out)
        by (nonlinear_arith)
        requires
            a >= e + 1,
            reserve_out - out >= 1,
            (reserve_in + e) * (reserve_out - out) >= reserve_in * reserve_out,
    ;
}

/// The amounts of both assets a depositor must contribute to receive
/// `requested_shares` new shares of a pool that currently holds
/// `reserve_x` / `reserve_y` against `share_supply` outstanding shares.
/// Both contributions are rounded up, in the pool's favor.
///
/// Fails with `InvalidState` when a positive share supply stands against an
/// empty reserve, and with `ArithmeticOverflow` when a contribution does
/// not fit in 64 bits.
pub fn deposit_amounts(
    reserve_x: u64,
    reserve_y: u64,
    share_supply: u64,
    requested_shares: u64,
) -> (r: Result<AmountPair, CurveError>)
    requires
        share_supply > 0,
        requested_shares > 0,
    ensures
        reserve_x == 0 || reserve_y == 0 ==> r == Err::<AmountPair, CurveError>(
            CurveError::InvalidState,
        ),
        reserve_x > 0 && reserve_y > 0 ==> ({
            let dx = spec_share_of_reserve_ceil(
                requested_shares as int,
                reserve_x as int,
                share_supply as int,
            );
            let dy = spec_share_of_reserve_ceil(
                requested_shares as int,
                reserve_y as int,
                share_supply as int,
            );
            if dx > u64::MAX || dy > u64::MAX {
                r == Err::<AmountPair, CurveError>(CurveError::ArithmeticOverflow)
            } else {
                r == Ok::<AmountPair, CurveError>((AmountPair { x: dx as u64, y: dy as u64 }))
            }
        }),
        0 <= spec_share_of_reserve_ceil(
            requested_shares as int,
            reserve_x as int,
            share_supply as int,
        ),
        0 <= spec_share_of_reserve_ceil(
            requested_shares as int,
            reserve_y as int,
            share_supply as int,
        ),
{
    proof {
        lemma_mul_nonnegative(requested_shares as int, reserve_x as int);
        lemma_mul_nonnegative(requested_shares as int, reserve_y as int);
        crate::math::lemma_ceil_div_nonneg(
            requested_shares as int * reserve_x as int,
            share_supply as int,
        );
        crate::math::lemma_ceil_div_nonneg(
            requested_shares as int * reserve_y as int,
            share_supply as int,
        );
    }
    if reserve_x == 0 || reserve_y == 0 {
        return Err(CurveError::InvalidState);
    }
    let x = match mul_div_ceil(requested_shares, reserve_x, share_supply) {
        Ok(v) => v,
        Err(_) => {
            return Err(CurveError::ArithmeticOverflow);
        },
    };
    let y = match mul_div_ceil(requested_shares, reserve_y, share_supply) {
        Ok(v) => v,
        Err(_) => {
            return Err(CurveError::ArithmeticOverflow);
        },
    };
    Ok(AmountPair { x, y })
}

/// The amounts of both assets returned for burning `burned_shares` of the
/// `share_supply` outstanding shares. Both redemptions are rounded down,
/// in the pool's favor, so they never exceed the reserves.
///
/// Fails with `InvalidState` when the supply is zero or more shares are
/// burned than exist; never overflows.
pub fn withdraw_amounts(
    reserve_x: u64,
    reserve_y: u64,
    share_supply: u64,
    burned_shares: u64,
) -> (r: Result<AmountPair, CurveError>)
    requires
        burned_shares > 0,
    ensures
        share_supply == 0 || burned_shares > share_supply ==> r == Err::<AmountPair, CurveError>(
            CurveError::InvalidState,
        ),
        share_supply > 0 && burned_shares <= share_supply ==> r == Ok::<AmountPair, CurveError>(
            (AmountPair {
                x: spec_share_of_reserve_floor(
                    burned_shares as int,
                    reserve_x as int,
                    share_supply as int,
                ) as u64,
                y: spec_share_of_reserve_floor(
                    burned_shares as int,
                    reserve_y as int,
                    share_supply as int,
                ) as u64,
            }),
        ),
        r matches Ok(p) ==> p.x <= reserve_x && p.y <= reserve_y,
        share_supply > 0 && burned_shares <= share_supply ==> ({
            &&& 0 <= spec_share_of_reserve_floor(
                burned_shares as int,
                reserve_x as int,
                share_supply as int,
            ) <= reserve_x
            &&& 0 <= spec_share_of_reserve_floor(
                burned_shares as int,
                reserve_y as int,
                share_supply as int,
            ) <= reserve_y
        }),
{
    if share_supply == 0 || burned_shares > share_supply {
        return Err(CurveError::InvalidState);
    }
    proof {
        lemma_proportion_le(burned_shares as int, share_supply as int, reserve_x as int);
        lemma_proportion_le(burned_shares as int, share_supply as int, reserve_y as int);
    }
    let x = match mul_div_floor(burned_shares, reserve_x, share_supply) {
        Ok(v) => v,
        Err(_) => {
            // Unreachable: the quotient was bounded within u64 above.
            proof {
                assert(false);
            }
            return Err(CurveError::ArithmeticOverflow);
        },
    };
    let y = match mul_div_floor(burned_shares, reserve_y, share_supply) {
        Ok(v) => v,
        Err(_) => {
            // Unreachable: the quotient was bounded within u64 above.
            proof {
                assert(false);
            }
            return Err(CurveError::ArithmeticOverflow);
        },
    };
    Ok(AmountPair { x, y })
}

/// The two legs of a constant-product swap: the trader provides
/// `amount_in` gross; the fee share of it is retained, the rest prices the
/// output against the current reserves.
///
/// Fails with `ArithmeticOverflow` when the input reserve plus the
/// effective input does not fit in 64 bits, with `DivisionByZero` when
/// that denominator is zero, and with `ZeroResult` when the output rounds
/// to zero (a no-op trade is rejected rather than silently succeeding).
pub fn swap_amounts(
    reserve_in: u64,
    reserve_out: u64,
    amount_in: u64,
    fee_rate_basis_points: u16,
) -> (r: Result<SwapAmounts, CurveError>)
    requires
        amount_in > 0,
        fee_rate_basis_points < 10000,
    ensures
        ({
            let eff = spec_effective_in(amount_in as int, fee_rate_basis_points as int);
            &&& reserve_in + eff > u64::MAX ==> r == Err::<SwapAmounts, CurveError>(
                CurveError::ArithmeticOverflow,
            )
            &&& reserve_in + eff == 0 ==> r == Err::<SwapAmounts, CurveError>(
                CurveError::DivisionByZero,
            )
            &&& 0 < reserve_in + eff <= u64::MAX ==> ({
                let out = spec_swap_out(reserve_in as int, reserve_out as int, eff);
                if out == 0 {
                    r == Err::<SwapAmounts, CurveError>(CurveError::ZeroResult)
                } else {
                    r == Ok::<SwapAmounts, CurveError>(
                        (SwapAmounts { amount_in, amount_out: out as u64 }),
                    )
                }
            })
        }),
        r matches Ok(s) ==> s.amount_in == amount_in && 0 < s.amount_out <= reserve_out,
        ({
            let eff = spec_effective_in(amount_in as int, fee_rate_basis_points as int);
            reserve_in + eff > 0 ==> 0 <= spec_swap_out(reserve_in as int, reserve_out as int, eff)
                <= reserve_out
        }),
{
    let fee_factor: u64 = 10000 - (fee_rate_basis_points as u64);
    proof {
        lemma_mul_is_commutative(amount_in as int, fee_factor as int);
        lemma_proportion_le(fee_factor as int, 10000, amount_in as int);
    }
    let effective_in = match mul_div_floor(amount_in, fee_factor, 10000) {
        Ok(v) => v,
        Err(_) => {
            // Unreachable: the quotient was bounded within u64 above.
            proof {
                assert(false);
            }
            return Err(CurveError::DivisionByZero);
        },
    };
    proof {
        if reserve_in as int + effective_in as int > 0 {
            lemma_proportion_le(
                effective_in as int,
                reserve_in as int + effective_in as int,
                reserve_out as int,
            );
        }
    }
    if reserve_in > u64::MAX - effective_in {
        return Err(CurveError::ArithmeticOverflow);
    }
    let den: u64 = reserve_in + effective_in;
    if den == 0 {
        return Err(CurveError::DivisionByZero);
    }
    let amount_out = match mul_div_floor(effective_in, reserve_out, den) {
        Ok(v) => v,
        Err(_) => {
            // Unreachable: the quotient was bounded within u64 above.
            proof {
                assert(false);
            }
            return Err(CurveError::ArithmeticOverflow);
        },
    };
    if amount_out == 0 {
        return Err(CurveError::ZeroResult);
    }
    Ok(SwapAmounts { amount_in, amount_out })
}

} // verus!
