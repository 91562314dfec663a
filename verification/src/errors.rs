//! The error taxonomy of the pool core.
//!
//! Every rejection is a distinct, named error; no failure is folded into a
//! generic one.  Classification and precondition failures are rejected before
//! any state mutation, so a call that returns one of these errors leaves the
//! pool exactly as it found it.

use vstd::prelude::*;

verus! {

/// Why a call into the pool core was rejected.
#[derive(Clone, Copy, Debug, PartialEq, Eq, Structural)]
pub enum PoolError {
    /// A named asset's ledger identity is not one of this pool's two assets.
    UnsupportedAsset,
    /// The sell asset and the buy asset of a swap are the same asset.
    SameAsset,
    /// An asset whose mirrored balance the call would price against has not
    /// finished its balance synchronization.
    NotReady,
    /// A non-owner attempted an owner-only action.
    Unauthorized,
    /// An overflow or underflow was detected while recomputing balances or
    /// the cached invariant; the state is left untouched.
    InvariantViolation,
    /// An external ledger reported that a query or transfer failed.
    ExternalCallFailed,
}

impl PoolError {
    /// A short stable name for the error, for operator-facing reporting.
    pub fn name(&self) -> (r: &'static str)
        ensures
            r@ == self.spec_name(),
    {
        match self {
            PoolError::UnsupportedAsset => "UnsupportedAsset",
            PoolError::SameAsset => "SameAsset",
            PoolError::NotReady => "NotReady",
            PoolError::Unauthorized => "Unauthorized",
            PoolError::InvariantViolation => "InvariantViolation",
            PoolError::ExternalCallFailed => "ExternalCallFailed",
        }
    }

    /// The name `name` returns, as a sequence of characters.
    pub open spec fn spec_name(self) -> Seq<char> {
        match self {
            PoolError::UnsupportedAsset => "UnsupportedAsset"@,
            PoolError::SameAsset => "SameAsset"@,
            PoolError::NotReady => "NotReady"@,
            PoolError::Unauthorized => "Unauthorized"@,
            PoolError::InvariantViolation => "InvariantViolation"@,
            PoolError::ExternalCallFailed => "ExternalCallFailed"@,
        }
    }
}

} // verus!
