//! Per-asset state: metadata, the mirrored balance, and the synchronization
//! state machine each asset moves through.
//!
//! Each of the pool's two assets lives on an external ledger.  The pool keeps
//! an `AssetEntry` per asset: its ledger identity, the metadata fetched from
//! the ledger, and `mirrored_balance`, the pool's belief about the reserve it
//! holds there.  `sync_state` records how far the asynchronous bootstrap
//! (provision storage, fetch metadata, fetch balance) has progressed.

use vstd::prelude::*;

verus! {

/// Where an asset stands in the balance-synchronization state machine.
///
/// The bootstrap runs `Uninitialized -> MetadataPending -> MetadataReady ->
/// BalancePending -> Ready`; a refresh re-enters `BalancePending` from
/// `Ready`, and a failed ledger response falls back to `Uninitialized` until
/// an explicit retry.
#[derive(Clone, Copy, Debug, PartialEq, Eq, Structural)]
pub enum SyncState {
    /// Nothing synchronized yet, or a ledger response reported an error.
    Uninitialized,
    /// A metadata query is outstanding.
    MetadataPending,
    /// Metadata arrived; the balance query has not been issued yet.
    MetadataReady,
    /// A balance query is outstanding.
    BalancePending,
    /// Metadata and balance are both synchronized; pricing may read
    /// `mirrored_balance`.
    Ready,
}

/// Direction of the most recent movement of an asset's mirrored balance.
#[derive(Clone, Copy, Debug, PartialEq, Eq, Structural)]
pub enum TokenRate {
    /// The balance has not moved yet, or the last write left it unchanged.
    Unchanged,
    /// The last write raised the balance.
    Increased,
    /// The last write lowered the balance.
    Decreased,
}

impl Default for TokenRate {
    /// A fresh asset starts with no recorded movement.
    fn default() -> (r: Self)
        ensures
            r == TokenRate::Unchanged,
    {
        TokenRate::Unchanged
    }
}

/// The direction of a balance movement from `previous` to `current`.
pub open spec fn spec_rate_of(previous: u128, current: u128) -> TokenRate {
    if current > previous {
        TokenRate::Increased
    } else if current < previous {
        TokenRate::Decreased
    } else {
        TokenRate::Unchanged
    }
}

impl TokenRate {
    /// Classifies the movement of a balance from `previous` to `current`.
    pub fn of(previous: u128, current: u128) -> (r: TokenRate)
        ensures
            r == spec_rate_of(previous, current),
    {
        if current > previous {
            TokenRate::Increased
        } else if current < previous {
            TokenRate::Decreased
        } else {
            TokenRate::Unchanged
        }
    }
}

/// Which ledger exchange an error response belongs to, recorded on the asset
/// when the ledger reports a failure.
#[derive(Clone, Copy, Debug, PartialEq, Eq, Structural)]
pub enum LedgerFault {
    /// The storage-provisioning request failed.
    ProvisionFailed,
    /// The metadata query failed or the ledger does not serve this asset.
    MetadataQueryFailed,
    /// The balance query failed.
    BalanceQueryFailed,
    /// An outbound transfer of the buy asset failed after the swap's
    /// sell-side mutation was already committed.
    TransferFailed,
}

impl LedgerFault {
    /// The taxonomy error a recorded ledger fault surfaces as: whichever
    /// exchange failed, the ledger reported an error for an external call.
    pub fn to_error(&self) -> (r: crate::errors::PoolError)
        ensures
            r == crate::errors::PoolError::ExternalCallFailed,
    {
        crate::errors::PoolError::ExternalCallFailed
    }
}

/// One of the pool's two assets.
#[derive(Debug, Clone, PartialEq, Eq)]
pub struct AssetEntry {
    /// The external ledger's identity for this asset; immutable once set.
    pub ledger_id: Vec<u8>,
    /// Human-readable name fetched from the ledger's metadata.
    pub display_name: Vec<u8>,
    /// Decimal places of the asset's native unit, fetched from the ledger's
    /// metadata; captured before any amount arithmetic.
    pub decimals: u8,
    /// The pool's belief about the reserve it holds on the external ledger.
    pub mirrored_balance: u128,
    /// Progress of the asynchronous synchronization for this asset.
    pub sync_state: SyncState,
    /// Whether the pool's storage on this ledger has been provisioned;
    /// provisioning is idempotent and never regresses.
    pub provisioned: bool,
    /// Direction of the most recent movement of `mirrored_balance`.
    pub rate: TokenRate,
    /// The last error a ledger response reported for this asset, if any.
    pub fault: Option<LedgerFault>,
}

impl AssetEntry {
    /// A fresh, unsynchronized entry for the asset `ledger_id`.
    pub fn new(ledger_id: Vec<u8>) -> (r: AssetEntry)
        ensures
            r.ledger_id@ == ledger_id@,
            r.display_name@ == Seq::<u8>::empty(),
            r.decimals == 0,
            r.mirrored_balance == 0,
            r.sync_state == SyncState::Uninitialized,
            !r.provisioned,
            r.rate == TokenRate::Unchanged,
            r.fault is None,
    {
        AssetEntry {
            ledger_id,
            display_name: Vec::new(),
            decimals: 0,
            mirrored_balance: 0,
            sync_state: SyncState::Uninitialized,
            provisioned: false,
            rate: TokenRate::Unchanged,
            fault: None,
        }
    }

    /// Writes a new mirrored balance and records the movement's direction.
    pub fn set_balance(&mut self, balance: u128)
        ensures
            *final(self) == (AssetEntry {
                mirrored_balance: balance,
                rate: spec_rate_of(old(self).mirrored_balance, balance),
                ..*old(self)
            }),
    {
        self.rate = TokenRate::of(self.mirrored_balance, balance);
        self.mirrored_balance = balance;
    }
}

/// Compares two byte strings for equality.
pub fn bytes_eq(a: &Vec<u8>, b: &Vec<u8>) -> (r: bool)
    ensures
        r == (a@ == b@),
{
    if a.len() != b.len() {
        proof {
            assert(a@ != b@) by {
                assert(a@.len() != b@.len());
            }
        }
        return false;
    }
    let n = a.len();
    let mut i: usize = 0;
    while i < n
        invariant
            n == a@.len(),
            n == b@.len(),
            0 <= i <= n,
            forall|j: int| 0 <= j < i ==> a@[j] == b@[j],
        decreases n - i,
    {
        if a[i] != b[i] {
            proof {
                assert(a@ != b@) by {
                    assert(a@[i as int] != b@[i as int]);
                }
            }
            return false;
        }
        i = i + 1;
    }
    proof {
        assert(a@ =~= b@);
    }
    true
}

} // verus!
