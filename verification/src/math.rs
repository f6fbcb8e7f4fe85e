//! Fixed-width arithmetic primitives.
//!
//! Every curve computation routes its reserve-scale multiplications through
//! `mul_div_floor` / `mul_div_ceil`, which compute `a * b / denom` in 128
//! bits so that no intermediate product can overflow, and report overflow
//! only when the true mathematical result does not fit in 64 bits.

use vstd::prelude::*;

use crate::errors::MathError;

verus! {

/// `a / d` rounded toward positive infinity, for `a >= 0` and `d > 0`.
pub open spec fn ceil_div(a: int, d: int) -> int {
    (a + d - 1) / d
}

/// `ceil_div` of a nonnegative value by a positive one is nonnegative.
pub proof fn lemma_ceil_div_nonneg(a: int, d: int)
    requires
        0 <= a,
        0 < d,
    ensures
        0 <= ceil_div(a, d),
{
    vstd::arithmetic::div_mod::lemma_div_pos_is_pos(a + d - 1, d);
}

/// `a * b / denom` rounded down, computed without intermediate overflow.
///
/// Fails with `DivisionByZero` when `denom == 0`, and with
/// `ArithmeticOverflow` exactly when the true quotient exceeds `u64::MAX`.
pub fn mul_div_floor(a: u64, b: u64, denom: u64) -> (r: Result<u64, MathError>)
    ensures
        denom == 0 ==> r == Err::<u64, MathError>(MathError::DivisionByZero),
        denom > 0 && a * b / (denom as int) > u64::MAX ==> r == Err::<u64, MathError>(
            MathError::ArithmeticOverflow,
        ),
        denom > 0 && a * b / (denom as int) <= u64::MAX ==> r == Ok::<u64, MathError>(
            (a * b / (denom as int)) as u64,
        ),
{
    if denom == 0 {
        return Err(MathError::DivisionByZero);
    }
    proof {
        assert((a as int) * (b as int) <= (u64::MAX as int) * (u64::MAX as int))
            by (nonlinear_arith)
            requires
                a <= u64::MAX,
                b <= u64::MAX,
        ;
    }
    let p: u128 = (a as u128) * (b as u128);
    let q: u128 = p / (denom as u128);
    if q > u64::MAX as u128 {
        Err(MathError::ArithmeticOverflow)
    } else {
        Ok(q as u64)
    }
}

/// `a * b / denom` rounded up, computed without intermediate overflow.
///
/// Fails with `DivisionByZero` when `denom == 0`, and with
/// `ArithmeticOverflow` exactly when the rounded-up quotient exceeds
/// `u64::MAX`.
pub fn mul_div_ceil(a: u64, b: u64, denom: u64) -> (r: Result<u64, MathError>)
    ensures
        denom == 0 ==> r == Err::<u64, MathError>(MathError::DivisionByZero),
        denom > 0 && ceil_div(a * b, denom as int) > u64::MAX ==> r == Err::<u64, MathError>(
            MathError::ArithmeticOverflow,
        ),
        denom > 0 && ceil_div(a * b, denom as int) <= u64::MAX ==> r == Ok::<u64, MathError>(
            ceil_div(a * b, denom as int) as u64,
        ),
{
    if denom == 0 {
        return Err(MathError::DivisionByZero);
    }
    proof {
        assert((a as int) * (b as int) <= (u64::MAX as int) * (u64::MAX as int))
            by (nonlinear_arith)
            requires
                a <= u64::MAX,
                b <= u64::MAX,
        ;
    }
    let p: u128 = (a as u128) * (b as u128);
    let q: u128 = (p + ((denom - 1) as u128)) / (denom as u128);
    if q > u64::MAX as u128 {
        Err(MathError::ArithmeticOverflow)
    } else {
        Ok(q as u64)
    }
}

/// The largest integer `r` with `r * r <= n`, found by binary search on
/// the 32-bit root range.
pub fn integer_sqrt(n: u64) -> (r: u64)
    ensures
        r * r <= n,
        (r + 1) * (r + 1) > n,
{
    let mut lo: u64 = 0;
    let mut hi: u64 = 4294967296;
    while lo + 1 < hi
        invariant
            lo < hi <= 4294967296,
            (lo as int) * (lo as int) <= n as int,
            (hi as int) * (hi as int) > n as int,
        decreases hi - lo,
    {
        let mid: u64 = lo + (hi - lo) / 2;
        proof {
            assert((mid as int) * (mid as int) <= 18446744065119617025) by (nonlinear_arith)
                requires
                    mid <= 4294967295u64,
            ;
        }
        if mid * mid <= n {
            lo = mid;
        } else {
            hi = mid;
        }
    }
    lo
}

} // verus!
