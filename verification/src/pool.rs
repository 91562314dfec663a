//! The pool's root aggregate: the owner, the two asset entries, and the
//! cached constant-product invariant.
//!
//! A `PoolState` is exclusively owned by its pool instance and mutated only
//! through the handlers of this crate; every handler either completes its
//! whole mutation or returns an error and leaves the state untouched.

use vstd::prelude::*;

use crate::asset::{AssetEntry, LedgerFault, SyncState, TokenRate, bytes_eq};
use crate::errors::PoolError;

verus! {

/// An outbound request the caller must issue to an external ledger on the
/// core's behalf.  The core never performs I/O itself: handlers return the
/// requests they need made, and the ledger's eventual response comes back
/// through the matching `on_*` handler.
#[derive(Debug, Clone, PartialEq, Eq)]
pub enum LedgerRequest {
    /// Provision storage for the pool's own account on `asset`'s ledger.
    ProvisionStorage { asset: Vec<u8> },
    /// Query `asset`'s metadata (display name and decimals).
    QueryMetadata { asset: Vec<u8> },
    /// Query the pool's balance of `asset` on its ledger.
    QueryBalance { asset: Vec<u8> },
    /// Transfer `amount` native units of `asset` to `to`.
    Transfer { asset: Vec<u8>, to: Vec<u8>, amount: u128 },
}

/// The root aggregate of the pool.
#[derive(Debug, Clone, PartialEq, Eq)]
pub struct PoolState {
    /// Identity of the liquidity provider authorized to top up reserves.
    pub owner: Vec<u8>,
    /// The first of the pool's two assets.
    pub asset_a: AssetEntry,
    /// The second of the pool's two assets.
    pub asset_b: AssetEntry,
    /// Cached product of the two mirrored balances, recomputed on every
    /// balance-affecting event; a diagnostic mirror of the curve's `k`, never
    /// the swap formula's input.
    pub invariant_k: u128,
}

impl PoolState {
    /// Well-formedness: the two ledger identities are distinct, and the
    /// cached invariant is the product of the two mirrored balances (so in
    /// particular that product fits in `u128`).
    pub open spec fn spec_wf(self) -> bool {
        &&& self.asset_a.ledger_id@ != self.asset_b.ledger_id@
        &&& self.invariant_k == self.asset_a.mirrored_balance * self.asset_b.mirrored_balance
    }

    /// Whether `id` names one of the pool's two assets.
    pub open spec fn spec_has_asset(self, id: Seq<u8>) -> bool {
        id == self.asset_a.ledger_id@ || id == self.asset_b.ledger_id@
    }

    /// Whether `id` names the first asset.
    pub open spec fn spec_is_a(self, id: Seq<u8>) -> bool {
        id == self.asset_a.ledger_id@
    }

    /// The entry `id` names, when `spec_has_asset(id)` holds.
    pub open spec fn spec_asset(self, id: Seq<u8>) -> AssetEntry {
        if self.spec_is_a(id) {
            self.asset_a
        } else {
            self.asset_b
        }
    }

    /// The entry `id` does not name, when `spec_has_asset(id)` holds.
    pub open spec fn spec_other_asset(self, id: Seq<u8>) -> AssetEntry {
        if self.spec_is_a(id) {
            self.asset_b
        } else {
            self.asset_a
        }
    }

    /// This pool with the entry named by `id` replaced by `e` and the cached
    /// invariant replaced by `k`.
    pub open spec fn spec_set_asset(self, id: Seq<u8>, e: AssetEntry, k: u128) -> PoolState {
        if self.spec_is_a(id) {
            PoolState { asset_a: e, invariant_k: k, ..self }
        } else {
            PoolState { asset_b: e, invariant_k: k, ..self }
        }
    }

    /// Creates the pool: owner plus the two external ledger identities.
    ///
    /// The two identities must be distinct for the lifetime of the pool;
    /// a pair naming the same ledger twice is rejected outright.  Both assets
    /// start `Uninitialized` with zero mirrored balances, so the cached
    /// invariant starts at zero.  Re-initialization guarding is the embedding
    /// caller's concern: this constructor only ever builds a fresh value.
    pub fn new(owner: Vec<u8>, a_id: Vec<u8>, b_id: Vec<u8>) -> (r: Result<PoolState, PoolError>)
        ensures
            a_id@ == b_id@ ==> r == Err::<PoolState, PoolError>(PoolError::SameAsset),
            a_id@ != b_id@ ==> {
                &&& r is Ok
                &&& r->Ok_0.spec_wf()
                &&& r->Ok_0.owner@ == owner@
                &&& r->Ok_0.asset_a.ledger_id@ == a_id@
                &&& r->Ok_0.asset_b.ledger_id@ == b_id@
                &&& r->Ok_0.asset_a.sync_state == SyncState::Uninitialized
                &&& r->Ok_0.asset_b.sync_state == SyncState::Uninitialized
                &&& r->Ok_0.asset_a.mirrored_balance == 0
                &&& r->Ok_0.asset_b.mirrored_balance == 0
                &&& r->Ok_0.invariant_k == 0
                &&& r->Ok_0.asset_a.display_name@ == Seq::<u8>::empty()
                &&& r->Ok_0.asset_b.display_name@ == Seq::<u8>::empty()
                &&& r->Ok_0.asset_a.decimals == 0
                &&& r->Ok_0.asset_b.decimals == 0
                &&& !r->Ok_0.asset_a.provisioned
                &&& !r->Ok_0.asset_b.provisioned
                &&& r->Ok_0.asset_a.rate == TokenRate::Unchanged
                &&& r->Ok_0.asset_b.rate == TokenRate::Unchanged
                &&& r->Ok_0.asset_a.fault is None
                &&& r->Ok_0.asset_b.fault is None
            },
    {
        if bytes_eq(&a_id, &b_id) {
            return Err(PoolError::SameAsset);
        }
        Ok(PoolState {
            owner,
            asset_a: AssetEntry::new(a_id),
            asset_b: AssetEntry::new(b_id),
            invariant_k: 0,
        })
    }
}

/// A read-only copy of one asset entry, for observability.
#[derive(Debug, Clone, PartialEq, Eq)]
pub struct AssetSnapshot {
    /// The asset's external ledger identity.
    pub ledger_id: Vec<u8>,
    /// The display name fetched from the ledger, empty until metadata syncs.
    pub display_name: Vec<u8>,
    /// The asset's decimal places, zero until metadata syncs.
    pub decimals: u8,
    /// The pool's mirrored balance of the asset.
    pub mirrored_balance: u128,
    /// Progress of the asset's synchronization.
    pub sync_state: SyncState,
    /// Direction of the last mirrored-balance movement.
    pub rate: TokenRate,
    /// The last ledger fault recorded for this asset, if any.
    pub fault: Option<LedgerFault>,
}

/// A read-only copy of the pool's whole state, for observability.
#[derive(Debug, Clone, PartialEq, Eq)]
pub struct PoolSnapshot {
    /// The pool owner's identity.
    pub owner: Vec<u8>,
    /// Snapshot of the first asset.
    pub asset_a: AssetSnapshot,
    /// Snapshot of the second asset.
    pub asset_b: AssetSnapshot,
    /// The cached product of the two mirrored balances.
    pub invariant_k: u128,
}

/// Copies a byte string.
pub fn clone_bytes(v: &Vec<u8>) -> (r: Vec<u8>)
    ensures
        r@ == v@,
{
    let r = v.clone();
    proof {
        assert(r@ =~= v@);
    }
    r
}

impl AssetEntry {
    /// A read-only copy of this entry.
    pub fn snapshot(&self) -> (r: AssetSnapshot)
        ensures
            r.ledger_id@ == self.ledger_id@,
            r.display_name@ == self.display_name@,
            r.decimals == self.decimals,
            r.mirrored_balance == self.mirrored_balance,
            r.sync_state == self.sync_state,
            r.rate == self.rate,
            r.fault == self.fault,
    {
        AssetSnapshot {
            ledger_id: clone_bytes(&self.ledger_id),
            display_name: clone_bytes(&self.display_name),
            decimals: self.decimals,
            mirrored_balance: self.mirrored_balance,
            sync_state: self.sync_state,
            rate: self.rate,
            fault: self.fault,
        }
    }
}

impl PoolState {
    /// A structured snapshot of the pool: owner, both assets' metadata,
    /// mirrored balances and sync states, and the cached invariant.  Pure
    /// read; the pool is not mutated.
    pub fn describe(&self) -> (r: PoolSnapshot)
        ensures
            r.owner@ == self.owner@,
            r.asset_a.ledger_id@ == self.asset_a.ledger_id@,
            r.asset_a.display_name@ == self.asset_a.display_name@,
            r.asset_a.decimals == self.asset_a.decimals,
            r.asset_a.mirrored_balance == self.asset_a.mirrored_balance,
            r.asset_a.sync_state == self.asset_a.sync_state,
            r.asset_a.rate == self.asset_a.rate,
            r.asset_a.fault == self.asset_a.fault,
            r.asset_b.ledger_id@ == self.asset_b.ledger_id@,
            r.asset_b.display_name@ == self.asset_b.display_name@,
            r.asset_b.decimals == self.asset_b.decimals,
            r.asset_b.mirrored_balance == self.asset_b.mirrored_balance,
            r.asset_b.sync_state == self.asset_b.sync_state,
            r.asset_b.rate == self.asset_b.rate,
            r.asset_b.fault == self.asset_b.fault,
            r.invariant_k == self.invariant_k,
    {
        PoolSnapshot {
            owner: clone_bytes(&self.owner),
            asset_a: self.asset_a.snapshot(),
            asset_b: self.asset_b.snapshot(),
            invariant_k: self.invariant_k,
        }
    }
}

} // verus!
