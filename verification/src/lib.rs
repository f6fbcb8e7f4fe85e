//! A constant-product automated market maker core.
//!
//! A pool holds reserves of two assets. Participants deposit a pair of
//! assets to receive pool-share tokens, withdraw assets proportionally by
//! redeeming shares, and swap one asset for the other against the pooled
//! reserves under a constant-product price curve with a fee on the input
//! side.
//!
//! This crate is the pool's arithmetic and state-transition logic only. It
//! computes how much should move and validates every request against the
//! caller's slippage bounds and the pool's invariants; it never moves assets
//! itself. The host (ledger, custody, persistence) reads a live snapshot of
//! the reserves and share supply, calls into this crate, and then performs
//! the returned asset movements atomically.

pub mod curve;
pub mod errors;
pub mod math;
pub mod ops;
pub mod state;
