//! The balance-synchronization protocol.
//!
//! Each asset's mirrored balance and metadata are reconciled with its
//! external ledger through asynchronous request/response exchanges.  The
//! handlers here never wait: a handler that needs a value from a ledger
//! returns the `LedgerRequest` the caller must issue, and the ledger's
//! eventual response re-enters through the matching `on_*` handler.
//!
//! Responses race: nothing orders two independent queries, so a response may
//! arrive after the asset has already left the state it was requested in.
//! Such a response is applied all the same, last writer wins, keyed on
//! arrival order.  A response carrying an error moves the asset to a terminal
//! `Uninitialized` state with the fault recorded; retrying is an explicit,
//! separately invoked operation (`request_sync`), never automatic.

use vstd::prelude::*;

use crate::asset::{AssetEntry, LedgerFault, SyncState, spec_rate_of, bytes_eq};
use crate::errors::PoolError;
use crate::pool::{LedgerRequest, PoolState, clone_bytes};

verus! {

impl AssetEntry {
    /// Applies a metadata response: records name and decimals, zeroes the
    /// mirrored balance (it has never been synchronized under the new
    /// metadata), and moves to `MetadataReady`.
    pub fn apply_metadata(&mut self, name: Vec<u8>, decimals: u8)
        ensures
            *final(self) == (AssetEntry {
                display_name: name,
                decimals: decimals,
                mirrored_balance: 0,
                rate: spec_rate_of(old(self).mirrored_balance, 0),
                sync_state: SyncState::MetadataReady,
                fault: None,
                ..*old(self)
            }),
    {
        self.display_name = name;
        self.decimals = decimals;
        self.set_balance(0);
        self.sync_state = SyncState::MetadataReady;
        self.fault = None;
    }

    /// Marks a balance query as outstanding.  Issued right after metadata
    /// arrives, or as a refresh from `Ready`.
    pub fn begin_balance_query(&mut self)
        requires
            old(self).sync_state == SyncState::MetadataReady
                || old(self).sync_state == SyncState::Ready,
        ensures
            *final(self) == (AssetEntry {
                sync_state: SyncState::BalancePending,
                ..*old(self)
            }),
    {
        self.sync_state = SyncState::BalancePending;
    }

    /// Applies a balance response: writes the reported balance, last writer
    /// wins, and moves to `Ready`.
    pub fn apply_balance(&mut self, balance: u128)
        ensures
            *final(self) == (AssetEntry {
                mirrored_balance: balance,
                rate: spec_rate_of(old(self).mirrored_balance, balance),
                sync_state: SyncState::Ready,
                fault: None,
                ..*old(self)
            }),
    {
        self.set_balance(balance);
        self.sync_state = SyncState::Ready;
        self.fault = None;
    }

    /// Begins (or explicitly retries) this asset's bootstrap: clears any
    /// recorded fault and marks the metadata query as outstanding.
    pub fn begin_sync(&mut self)
        ensures
            *final(self) == (AssetEntry {
                sync_state: SyncState::MetadataPending,
                fault: None,
                ..*old(self)
            }),
    {
        self.sync_state = SyncState::MetadataPending;
        self.fault = None;
    }

    /// Records an error response: the asset falls back to the terminal
    /// `Uninitialized` state with the fault recorded, awaiting an explicit
    /// retry.
    pub fn record_fault(&mut self, fault: LedgerFault)
        ensures
            *final(self) == (AssetEntry {
                sync_state: SyncState::Uninitialized,
                fault: Some(fault),
                ..*old(self)
            }),
    {
        self.sync_state = SyncState::Uninitialized;
        self.fault = Some(fault);
    }
}

impl PoolState {
    /// Begins (or explicitly retries) the bootstrap of the asset `asset_id`
    /// names: the caller must provision the pool's storage on that ledger and
    /// query its metadata, in that order.  Provisioning is idempotent on the
    /// ledger's side, so re-running the bootstrap never harms a pool whose
    /// storage already exists.
    pub fn request_sync(&mut self, asset_id: &Vec<u8>) -> (r: Result<
        Vec<LedgerRequest>,
        PoolError,
    >)
        ensures
            !old(self).spec_has_asset(asset_id@) ==> {
                &&& r == Err::<Vec<LedgerRequest>, PoolError>(PoolError::UnsupportedAsset)
                &&& *final(self) == *old(self)
            },
            old(self).spec_has_asset(asset_id@) ==> {
                &&& r is Ok
                &&& r->Ok_0@.len() == 2
                &&& (r->Ok_0@[0] matches LedgerRequest::ProvisionStorage { asset }
                    && asset@ == asset_id@)
                &&& (r->Ok_0@[1] matches LedgerRequest::QueryMetadata { asset }
                    && asset@ == asset_id@)
                &&& *final(self) == old(self).spec_set_asset(
                    asset_id@,
                    (AssetEntry {
                        sync_state: SyncState::MetadataPending,
                        fault: None,
                        ..old(self).spec_asset(asset_id@)
                    }),
                    old(self).invariant_k,
                )
            },
            old(self).spec_wf() ==> final(self).spec_wf(),
    {
        if bytes_eq(asset_id, &self.asset_a.ledger_id) {
            self.asset_a.begin_sync();
        } else if bytes_eq(asset_id, &self.asset_b.ledger_id) {
            self.asset_b.begin_sync();
        } else {
            return Err(PoolError::UnsupportedAsset);
        }
        let mut requests: Vec<LedgerRequest> = Vec::new();
        requests.push(LedgerRequest::ProvisionStorage { asset: clone_bytes(asset_id) });
        requests.push(LedgerRequest::QueryMetadata { asset: clone_bytes(asset_id) });
        Ok(requests)
    }

    /// Acknowledges a storage-provisioning response.  Provisioning is
    /// idempotent: the acknowledgment never changes `sync_state`, and
    /// re-acknowledging an already-provisioned asset leaves the pool exactly
    /// as it was.
    pub fn on_provision_ack(&mut self, asset_id: &Vec<u8>) -> (r: Result<(), PoolError>)
        ensures
            !old(self).spec_has_asset(asset_id@) ==> {
                &&& r == Err::<(), PoolError>(PoolError::UnsupportedAsset)
                &&& *final(self) == *old(self)
            },
            old(self).spec_has_asset(asset_id@) ==> {
                &&& r is Ok
                &&& *final(self) == old(self).spec_set_asset(
                    asset_id@,
                    (AssetEntry { provisioned: true, ..old(self).spec_asset(asset_id@) }),
                    old(self).invariant_k,
                )
            },
            old(self).spec_has_asset(asset_id@)
                ==> final(self).spec_asset(asset_id@).sync_state
                == old(self).spec_asset(asset_id@).sync_state,
            old(self).spec_has_asset(asset_id@) && old(self).spec_asset(asset_id@).provisioned
                ==> *final(self) == *old(self),
            old(self).spec_wf() ==> final(self).spec_wf(),
    {
        if bytes_eq(asset_id, &self.asset_a.ledger_id) {
            self.asset_a.provisioned = true;
            Ok(())
        } else if bytes_eq(asset_id, &self.asset_b.ledger_id) {
            self.asset_b.provisioned = true;
            Ok(())
        } else {
            Err(PoolError::UnsupportedAsset)
        }
    }

    /// Applies a metadata response for the asset `asset_id` names and hands
    /// back the balance query the caller must issue next.
    ///
    /// The mirrored balance is reset to zero until that balance query
    /// resolves, so the cached invariant drops to zero as well.  Responses
    /// are applied last writer wins, whatever state the asset is in by the
    /// time this one arrives.
    pub fn on_metadata_response(&mut self, asset_id: &Vec<u8>, name: Vec<u8>, decimals: u8) -> (r:
        Result<LedgerRequest, PoolError>)
        ensures
            !old(self).spec_has_asset(asset_id@) ==> {
                &&& r == Err::<LedgerRequest, PoolError>(PoolError::UnsupportedAsset)
                &&& *final(self) == *old(self)
            },
            old(self).spec_has_asset(asset_id@) ==> {
                &&& r is Ok
                &&& (r->Ok_0 matches LedgerRequest::QueryBalance { asset }
                    && asset@ == asset_id@)
                &&& *final(self) == old(self).spec_set_asset(
                    asset_id@,
                    (AssetEntry {
                        display_name: name,
                        decimals: decimals,
                        mirrored_balance: 0,
                        rate: spec_rate_of(old(self).spec_asset(asset_id@).mirrored_balance, 0),
                        sync_state: SyncState::BalancePending,
                        fault: None,
                        ..old(self).spec_asset(asset_id@)
                    }),
                    0,
                )
            },
            old(self).spec_wf() ==> final(self).spec_wf(),
    {
        if bytes_eq(asset_id, &self.asset_a.ledger_id) {
            self.asset_a.apply_metadata(name, decimals);
            self.asset_a.begin_balance_query();
        } else if bytes_eq(asset_id, &self.asset_b.ledger_id) {
            self.asset_b.apply_metadata(name, decimals);
            self.asset_b.begin_balance_query();
        } else {
            return Err(PoolError::UnsupportedAsset);
        }
        self.invariant_k = 0;
        proof {
            vstd::arithmetic::mul::lemma_mul_basics(self.asset_a.mirrored_balance as int);
            vstd::arithmetic::mul::lemma_mul_basics(self.asset_b.mirrored_balance as int);
        }
        Ok(LedgerRequest::QueryBalance { asset: clone_bytes(asset_id) })
    }

    /// Applies a balance response for the asset `asset_id` names: the
    /// reported value replaces the mirrored balance, last writer wins, and
    /// the asset becomes `Ready`.
    ///
    /// The previous mirrored balance is returned so that a stale response
    /// overwriting later mutations is visible to the caller rather than
    /// silent.  If the new balance makes the cached invariant overflow, the
    /// response is rejected as an `InvariantViolation` and nothing changes.
    pub fn on_balance_response(&mut self, asset_id: &Vec<u8>, balance: u128) -> (r: Result<
        u128,
        PoolError,
    >)
        ensures
            !old(self).spec_has_asset(asset_id@) ==> {
                &&& r == Err::<u128, PoolError>(PoolError::UnsupportedAsset)
                &&& *final(self) == *old(self)
            },
            old(self).spec_has_asset(asset_id@)
                && balance * old(self).spec_other_asset(asset_id@).mirrored_balance > u128::MAX
                ==> {
                &&& r == Err::<u128, PoolError>(PoolError::InvariantViolation)
                &&& *final(self) == *old(self)
            },
            old(self).spec_has_asset(asset_id@)
                && balance * old(self).spec_other_asset(asset_id@).mirrored_balance <= u128::MAX
                ==> {
                &&& r == Ok::<u128, PoolError>(old(self).spec_asset(asset_id@).mirrored_balance)
                &&& *final(self) == old(self).spec_set_asset(
                    asset_id@,
                    (AssetEntry {
                        mirrored_balance: balance,
                        rate: spec_rate_of(
                            old(self).spec_asset(asset_id@).mirrored_balance,
                            balance,
                        ),
                        sync_state: SyncState::Ready,
                        fault: None,
                        ..old(self).spec_asset(asset_id@)
                    }),
                    (balance * old(self).spec_other_asset(asset_id@).mirrored_balance) as u128,
                )
            },
            old(self).spec_wf() ==> final(self).spec_wf(),
    {
        if bytes_eq(asset_id, &self.asset_a.ledger_id) {
            match balance.checked_mul(self.asset_b.mirrored_balance) {
                Some(k) => {
                    let previous = self.asset_a.mirrored_balance;
                    self.asset_a.apply_balance(balance);
                    self.invariant_k = k;
                    Ok(previous)
                },
                None => Err(PoolError::InvariantViolation),
            }
        } else if bytes_eq(asset_id, &self.asset_b.ledger_id) {
            match balance.checked_mul(self.asset_a.mirrored_balance) {
                Some(k) => {
                    let previous = self.asset_b.mirrored_balance;
                    self.asset_b.apply_balance(balance);
                    self.invariant_k = k;
                    proof {
                        vstd::arithmetic::mul::lemma_mul_is_commutative(
                            balance as int,
                            self.asset_a.mirrored_balance as int,
                        );
                    }
                    Ok(previous)
                },
                None => Err(PoolError::InvariantViolation),
            }
        } else {
            Err(PoolError::UnsupportedAsset)
        }
    }

    /// Requests a refresh of a `Ready` asset's mirrored balance, for example
    /// after a deposit: the asset re-enters `BalancePending` and the caller
    /// must issue the returned balance query.
    pub fn request_refresh(&mut self, asset_id: &Vec<u8>) -> (r: Result<LedgerRequest, PoolError>)
        ensures
            !old(self).spec_has_asset(asset_id@) ==> {
                &&& r == Err::<LedgerRequest, PoolError>(PoolError::UnsupportedAsset)
                &&& *final(self) == *old(self)
            },
            old(self).spec_has_asset(asset_id@)
                && old(self).spec_asset(asset_id@).sync_state != SyncState::Ready ==> {
                &&& r == Err::<LedgerRequest, PoolError>(PoolError::NotReady)
                &&& *final(self) == *old(self)
            },
            old(self).spec_has_asset(asset_id@)
                && old(self).spec_asset(asset_id@).sync_state == SyncState::Ready ==> {
                &&& r is Ok
                &&& (r->Ok_0 matches LedgerRequest::QueryBalance { asset }
                    && asset@ == asset_id@)
                &&& *final(self) == old(self).spec_set_asset(
                    asset_id@,
                    (AssetEntry {
                        sync_state: SyncState::BalancePending,
                        ..old(self).spec_asset(asset_id@)
                    }),
                    old(self).invariant_k,
                )
            },
            old(self).spec_wf() ==> final(self).spec_wf(),
    {
        if bytes_eq(asset_id, &self.asset_a.ledger_id) {
            if !matches!(self.asset_a.sync_state, SyncState::Ready) {
                return Err(PoolError::NotReady);
            }
            self.asset_a.begin_balance_query();
        } else if bytes_eq(asset_id, &self.asset_b.ledger_id) {
            if !matches!(self.asset_b.sync_state, SyncState::Ready) {
                return Err(PoolError::NotReady);
            }
            self.asset_b.begin_balance_query();
        } else {
            return Err(PoolError::UnsupportedAsset);
        }
        Ok(LedgerRequest::QueryBalance { asset: clone_bytes(asset_id) })
    }

    /// Applies an error response from a query exchange: the asset falls back
    /// to the terminal `Uninitialized` state with the fault recorded.  The
    /// pool never retries on its own; `request_sync` is the explicit retry.
    pub fn on_sync_error(&mut self, asset_id: &Vec<u8>, fault: LedgerFault) -> (r: Result<
        (),
        PoolError,
    >)
        ensures
            !old(self).spec_has_asset(asset_id@) ==> {
                &&& r == Err::<(), PoolError>(PoolError::UnsupportedAsset)
                &&& *final(self) == *old(self)
            },
            old(self).spec_has_asset(asset_id@) ==> {
                &&& r is Ok
                &&& *final(self) == old(self).spec_set_asset(
                    asset_id@,
                    (AssetEntry {
                        sync_state: SyncState::Uninitialized,
                        fault: Some(fault),
                        ..old(self).spec_asset(asset_id@)
                    }),
                    old(self).invariant_k,
                )
            },
            old(self).spec_wf() ==> final(self).spec_wf(),
    {
        if bytes_eq(asset_id, &self.asset_a.ledger_id) {
            self.asset_a.record_fault(fault);
            Ok(())
        } else if bytes_eq(asset_id, &self.asset_b.ledger_id) {
            self.asset_b.record_fault(fault);
            Ok(())
        } else {
            Err(PoolError::UnsupportedAsset)
        }
    }

    /// Records that an outbound transfer of the asset `asset_id` names
    /// failed after its swap had already committed.  The mutation is not
    /// rolled back — an automatic rollback would need a second asynchronous
    /// round trip that could itself fail — so the fault is only recorded for
    /// operator reconciliation; the sync state and balances stay as they are.
    pub fn on_transfer_failure(&mut self, asset_id: &Vec<u8>) -> (r: Result<(), PoolError>)
        ensures
            !old(self).spec_has_asset(asset_id@) ==> {
                &&& r == Err::<(), PoolError>(PoolError::UnsupportedAsset)
                &&& *final(self) == *old(self)
            },
            old(self).spec_has_asset(asset_id@) ==> {
                &&& r is Ok
                &&& *final(self) == old(self).spec_set_asset(
                    asset_id@,
                    (AssetEntry {
                        fault: Some(LedgerFault::TransferFailed),
                        ..old(self).spec_asset(asset_id@)
                    }),
                    old(self).invariant_k,
                )
            },
            old(self).spec_has_asset(asset_id@)
                ==> final(self).spec_asset(asset_id@).sync_state
                == old(self).spec_asset(asset_id@).sync_state,
            old(self).spec_wf() ==> final(self).spec_wf(),
    {
        if bytes_eq(asset_id, &self.asset_a.ledger_id) {
            self.asset_a.fault = Some(LedgerFault::TransferFailed);
            Ok(())
        } else if bytes_eq(asset_id, &self.asset_b.ledger_id) {
            self.asset_b.fault = Some(LedgerFault::TransferFailed);
            Ok(())
        } else {
            Err(PoolError::UnsupportedAsset)
        }
    }
}

} // verus!
