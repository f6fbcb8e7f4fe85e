//! Error kinds returned by the pool core.
//!
//! Every failure is recoverable by the caller: the first failing
//! precondition or computation aborts the operation and names its cause,
//! and no partial effect is committed.

use vstd::prelude::*;

verus! {

/// Failure of a fixed-point arithmetic primitive.
#[derive(Clone, Copy, Debug, PartialEq, Eq, Structural)]
pub enum MathError {
    /// The true mathematical result does not fit in 64 bits.
    ArithmeticOverflow,
    /// The divisor was zero.
    DivisionByZero,
}

/// Failure of a curve computation.
#[derive(Clone, Copy, Debug, PartialEq, Eq, Structural)]
pub enum CurveError {
    /// The reserve/supply figures handed to the curve are inconsistent:
    /// a positive share supply with an empty reserve, a zero share supply,
    /// or more shares burned than exist.
    InvalidState,
    /// A swap whose debit or credit rounds to zero; the trade would be a
    /// no-op and is rejected rather than silently succeeding.
    ZeroResult,
    /// A computed amount does not fit in 64 bits.
    ArithmeticOverflow,
    /// A curve denominator was zero.
    DivisionByZero,
}

/// Failure of a pool operation.
#[derive(Clone, Copy, Debug, PartialEq, Eq, Structural)]
pub enum AmmError {
    /// A zero or otherwise disallowed magnitude was requested.
    InvalidAmount,
    /// A computed amount violates the caller's slippage bound.
    SlippageExceeded,
    /// A swap or withdrawal was attempted on a locked pool.
    PoolLocked,
    /// Pool initialization with a fee of 100% or more.
    InvalidFee,
    /// The curve computation failed; carries the specific cause.
    Curve(CurveError),
}

} // verus!
