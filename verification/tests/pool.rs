//! Tests of pool construction, observability, and the balance-sync state
//! machine.

use amm::asset::{LedgerFault, SyncState, TokenRate, bytes_eq};
use amm::errors::PoolError;
use amm::pool::{LedgerRequest, PoolState};

fn id(s: &str) -> Vec<u8> {
    s.as_bytes().to_vec()
}

/// A pool whose bootstrap has not started.
fn fresh_pool() -> PoolState {
    PoolState::new(id("owner"), id("token-a"), id("token-b")).unwrap()
}

/// Drives one asset through provision, metadata and balance responses.
fn sync_asset(p: &mut PoolState, asset: &str, name: &str, decimals: u8, balance: u128) {
    let requests = p.request_sync(&id(asset)).unwrap();
    assert_eq!(requests.len(), 2);
    assert_eq!(requests[0], LedgerRequest::ProvisionStorage { asset: id(asset) });
    assert_eq!(requests[1], LedgerRequest::QueryMetadata { asset: id(asset) });
    p.on_provision_ack(&id(asset)).unwrap();
    let next = p.on_metadata_response(&id(asset), id(name), decimals).unwrap();
    assert_eq!(next, LedgerRequest::QueryBalance { asset: id(asset) });
    p.on_balance_response(&id(asset), balance).unwrap();
}

/// A pool with both assets `Ready` at the given balances, equal decimals.
fn ready_pool(x: u128, y: u128) -> PoolState {
    let mut p = fresh_pool();
    sync_asset(&mut p, "token-a", "Token A", 6, x);
    sync_asset(&mut p, "token-b", "Token B", 6, y);
    p
}

#[test]
fn new_rejects_duplicate_ledger() {
    let r = PoolState::new(id("owner"), id("token-a"), id("token-a"));
    assert_eq!(r, Err(PoolError::SameAsset));
}

#[test]
fn new_pool_is_unsynchronized() {
    let p = fresh_pool();
    let s = p.describe();
    assert_eq!(s.owner, id("owner"));
    assert_eq!(s.asset_a.ledger_id, id("token-a"));
    assert_eq!(s.asset_b.ledger_id, id("token-b"));
    assert_eq!(s.asset_a.sync_state, SyncState::Uninitialized);
    assert_eq!(s.asset_b.sync_state, SyncState::Uninitialized);
    assert_eq!(s.asset_a.mirrored_balance, 0);
    assert_eq!(s.asset_b.mirrored_balance, 0);
    assert_eq!(s.invariant_k, 0);
    assert_eq!(s.asset_a.rate, TokenRate::Unchanged);
    assert_eq!(s.asset_a.fault, None);
}

#[test]
fn bootstrap_walks_the_state_machine() {
    let mut p = fresh_pool();
    let requests = p.request_sync(&id("token-a")).unwrap();
    assert_eq!(requests.len(), 2);
    assert_eq!(p.asset_a.sync_state, SyncState::MetadataPending);

    p.on_provision_ack(&id("token-a")).unwrap();
    assert!(p.asset_a.provisioned);
    assert_eq!(p.asset_a.sync_state, SyncState::MetadataPending);

    let next = p.on_metadata_response(&id("token-a"), id("Token A"), 8).unwrap();
    assert_eq!(next, LedgerRequest::QueryBalance { asset: id("token-a") });
    assert_eq!(p.asset_a.sync_state, SyncState::BalancePending);
    assert_eq!(p.asset_a.display_name, id("Token A"));
    assert_eq!(p.asset_a.decimals, 8);
    assert_eq!(p.asset_a.mirrored_balance, 0);

    p.on_balance_response(&id("token-a"), 4200).unwrap();
    assert_eq!(p.asset_a.sync_state, SyncState::Ready);
    assert_eq!(p.asset_a.mirrored_balance, 4200);
    assert_eq!(p.asset_a.rate, TokenRate::Increased);
    // The other asset still mirrors zero, so the invariant stays zero.
    assert_eq!(p.invariant_k, 0);
}

#[test]
fn balance_response_recomputes_invariant() {
    let p = ready_pool(900, 300);
    assert_eq!(p.invariant_k, 270_000);
    assert_eq!(p.asset_a.sync_state, SyncState::Ready);
    assert_eq!(p.asset_b.sync_state, SyncState::Ready);
}

#[test]
fn provision_ack_is_idempotent() {
    let mut p = fresh_pool();
    p.request_sync(&id("token-a")).unwrap();
    p.on_provision_ack(&id("token-a")).unwrap();
    let before = p.clone();
    // A duplicate provisioning acknowledgment must not change sync_state nor
    // fail the surrounding initialization.
    let r = p.on_provision_ack(&id("token-a"));
    assert_eq!(r, Ok(()));
    assert_eq!(p, before);
    assert_eq!(p.asset_a.sync_state, SyncState::MetadataPending);
}

#[test]
fn sync_error_is_terminal_until_retried() {
    let mut p = fresh_pool();
    p.request_sync(&id("token-a")).unwrap();
    p.on_sync_error(&id("token-a"), LedgerFault::MetadataQueryFailed).unwrap();
    assert_eq!(p.asset_a.sync_state, SyncState::Uninitialized);
    assert_eq!(p.asset_a.fault, Some(LedgerFault::MetadataQueryFailed));
    // The explicit retry clears the fault and restarts the bootstrap.
    let requests = p.request_sync(&id("token-a")).unwrap();
    assert_eq!(requests.len(), 2);
    assert_eq!(p.asset_a.sync_state, SyncState::MetadataPending);
    assert_eq!(p.asset_a.fault, None);
}

#[test]
fn refresh_only_from_ready() {
    let mut p = ready_pool(900, 300);
    let next = p.request_refresh(&id("token-a")).unwrap();
    assert_eq!(next, LedgerRequest::QueryBalance { asset: id("token-a") });
    assert_eq!(p.asset_a.sync_state, SyncState::BalancePending);
    // A second refresh while the query is outstanding is rejected.
    assert_eq!(p.request_refresh(&id("token-a")), Err(PoolError::NotReady));
}

#[test]
fn unknown_ledger_is_rejected_everywhere() {
    let mut p = fresh_pool();
    let ghost_ledger = id("token-c");
    assert_eq!(p.request_sync(&ghost_ledger), Err(PoolError::UnsupportedAsset));
    assert_eq!(p.on_provision_ack(&ghost_ledger), Err(PoolError::UnsupportedAsset));
    assert_eq!(
        p.on_metadata_response(&ghost_ledger, id("Ghost"), 0),
        Err(PoolError::UnsupportedAsset)
    );
    assert_eq!(p.on_balance_response(&ghost_ledger, 1), Err(PoolError::UnsupportedAsset));
    assert_eq!(
        p.on_sync_error(&ghost_ledger, LedgerFault::BalanceQueryFailed),
        Err(PoolError::UnsupportedAsset)
    );
    assert_eq!(p.on_transfer_failure(&ghost_ledger), Err(PoolError::UnsupportedAsset));
}

#[test]
fn metadata_response_resets_balance_and_invariant() {
    let mut p = ready_pool(900, 300);
    assert_eq!(p.invariant_k, 270_000);
    p.on_metadata_response(&id("token-a"), id("Token A2"), 12).unwrap();
    assert_eq!(p.asset_a.mirrored_balance, 0);
    assert_eq!(p.asset_a.decimals, 12);
    assert_eq!(p.asset_a.rate, TokenRate::Decreased);
    assert_eq!(p.invariant_k, 0);
    assert_eq!(p.asset_a.sync_state, SyncState::BalancePending);
}

#[test]
fn balance_overflow_is_rejected_without_mutation() {
    let mut p = ready_pool(900, 300);
    let before = p.clone();
    // 900 on the other side: any balance above u128::MAX / 900 overflows k.
    let r = p.on_balance_response(&id("token-b"), u128::MAX / 900 + 1);
    assert_eq!(r, Err(PoolError::InvariantViolation));
    assert_eq!(p, before);
}

#[test]
fn transfer_failure_is_recorded_not_rolled_back() {
    let mut p = ready_pool(900, 300);
    let before_balance = p.asset_b.mirrored_balance;
    p.on_transfer_failure(&id("token-b")).unwrap();
    assert_eq!(p.asset_b.fault, Some(LedgerFault::TransferFailed));
    assert_eq!(p.asset_b.sync_state, SyncState::Ready);
    assert_eq!(p.asset_b.mirrored_balance, before_balance);
}

#[test]
fn rate_tracks_balance_movement() {
    assert_eq!(TokenRate::of(5, 9), TokenRate::Increased);
    assert_eq!(TokenRate::of(9, 5), TokenRate::Decreased);
    assert_eq!(TokenRate::of(5, 5), TokenRate::Unchanged);
    assert_eq!(TokenRate::default(), TokenRate::Unchanged);
}

#[test]
fn bytes_eq_compares_contents() {
    assert!(bytes_eq(&id("token-a"), &id("token-a")));
    assert!(!bytes_eq(&id("token-a"), &id("token-b")));
    assert!(!bytes_eq(&id("token-a"), &id("token-aa")));
    assert!(bytes_eq(&id(""), &id("")));
}

#[test]
fn ledger_faults_surface_as_external_call_failed() {
    assert_eq!(LedgerFault::ProvisionFailed.to_error(), PoolError::ExternalCallFailed);
    assert_eq!(LedgerFault::MetadataQueryFailed.to_error(), PoolError::ExternalCallFailed);
    assert_eq!(LedgerFault::BalanceQueryFailed.to_error(), PoolError::ExternalCallFailed);
    assert_eq!(LedgerFault::TransferFailed.to_error(), PoolError::ExternalCallFailed);
}

#[test]
fn error_names_are_distinct() {
    assert_eq!(PoolError::UnsupportedAsset.name(), "UnsupportedAsset");
    assert_eq!(PoolError::SameAsset.name(), "SameAsset");
    assert_eq!(PoolError::NotReady.name(), "NotReady");
    assert_eq!(PoolError::Unauthorized.name(), "Unauthorized");
    assert_eq!(PoolError::InvariantViolation.name(), "InvariantViolation");
    assert_eq!(PoolError::ExternalCallFailed.name(), "ExternalCallFailed");
}
