//! The pool record and its one-time initialization.

use vstd::prelude::*;

use crate::errors::AmmError;

verus! {

/// The record describing one pool instance. It is created once and read by
/// every operation; the live reserve and share-supply figures are not part
/// of it but are read from the host at call time.
///
/// Identifiers (`seed`, the asset ids, the authority) are opaque to the
/// core: the host maps them to whatever identity scheme its ledger uses.
#[derive(Clone, Copy, Debug, PartialEq, Eq)]
pub struct PoolState {
    /// Distinguishes pools over the same asset pair; immutable.
    pub seed: u64,
    /// Identifier of the first pooled asset; immutable.
    pub asset_x_id: u64,
    /// Identifier of the second pooled asset; immutable.
    pub asset_y_id: u64,
    /// Fee charged on swap input, in basis points (10000 = 100%); always
    /// below 10000.
    pub fee_rate_basis_points: u16,
    /// Identity permitted to lock and unlock the pool; absent for an
    /// immutable, no-authority pool.
    pub authority: Option<u64>,
    /// While set, swaps and withdrawals fail; deposits are unaffected.
    pub locked: bool,
}

impl PoolState {
    /// The record's invariant: the fee rate is a proper fraction.
    pub open spec fn well_formed(self) -> bool {
        self.fee_rate_basis_points < 10000
    }
}

/// Creates a fresh pool record, unlocked, with the given fee and optional
/// lock authority.
///
/// Fails with `InvalidFee` exactly when the fee is 100% or more.
/// Uniqueness of `seed` per asset pair is the host's concern: the record
/// store must refuse to create a second record for a seed it already
/// holds.
pub fn initialize(
    seed: u64,
    asset_x_id: u64,
    asset_y_id: u64,
    fee_rate_basis_points: u16,
    authority: Option<u64>,
) -> (r: Result<PoolState, AmmError>)
    ensures
        fee_rate_basis_points >= 10000 ==> r == Err::<PoolState, AmmError>(AmmError::InvalidFee),
        fee_rate_basis_points < 10000 ==> r == Ok::<PoolState, AmmError>(
            (PoolState {
                seed,
                asset_x_id,
                asset_y_id,
                fee_rate_basis_points,
                authority,
                locked: false,
            }),
        ),
        r matches Ok(state) ==> state.well_formed(),
{
    if fee_rate_basis_points >= 10000 {
        return Err(AmmError::InvalidFee);
    }
    Ok(PoolState { seed, asset_x_id, asset_y_id, fee_rate_basis_points, authority, locked: false })
}

} // verus!
