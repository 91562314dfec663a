//! Tests of deposit classification, swap execution, and their interaction
//! with the balance-sync protocol.

use amm::asset::SyncState;
use amm::errors::PoolError;
use amm::pool::{LedgerRequest, PoolState};
use amm::settle::parse_asset_pair;

fn id(s: &str) -> Vec<u8> {
    s.as_bytes().to_vec()
}

fn sync_asset(p: &mut PoolState, asset: &str, name: &str, decimals: u8, balance: u128) {
    p.request_sync(&id(asset)).unwrap();
    p.on_provision_ack(&id(asset)).unwrap();
    p.on_metadata_response(&id(asset), id(name), decimals).unwrap();
    p.on_balance_response(&id(asset), balance).unwrap();
}

/// A pool with both assets `Ready` at the given balances and decimals.
fn ready_pool_decimals(x: u128, dx: u8, y: u128, dy: u8) -> PoolState {
    let mut p = PoolState::new(id("owner"), id("token-a"), id("token-b")).unwrap();
    sync_asset(&mut p, "token-a", "Token A", dx, x);
    sync_asset(&mut p, "token-b", "Token B", dy, y);
    p
}

fn ready_pool(x: u128, y: u128) -> PoolState {
    ready_pool_decimals(x, 6, y, 6)
}

#[test]
fn swap_scenario_constant_product() {
    // Pool x = 900 (sell side), y = 300 (buy side), equal decimals; a swap
    // of 100 releases (300 * 100) / (900 + 100) = 30.
    let mut p = ready_pool(900, 300);
    let r = p.swap(&id("alice"), &id("token-a"), &id("token-b"), 100).unwrap();
    assert_eq!(
        r,
        LedgerRequest::Transfer { asset: id("token-b"), to: id("alice"), amount: 30 }
    );
    assert_eq!(p.asset_a.mirrored_balance, 1000);
    assert_eq!(p.asset_b.mirrored_balance, 270);
    assert_eq!(p.invariant_k, 270_000);
}

#[test]
fn swap_in_the_other_direction() {
    let mut p = ready_pool(300, 900);
    // Sell token-b into the pool: x = 300 -> b reserve, buy token-a.
    let r = p.swap(&id("alice"), &id("token-b"), &id("token-a"), 100).unwrap();
    // x = 900 (token-b reserve), y = 300 (token-a): b = 30000 / 1000 = 30.
    assert_eq!(
        r,
        LedgerRequest::Transfer { asset: id("token-a"), to: id("alice"), amount: 30 }
    );
    assert_eq!(p.asset_b.mirrored_balance, 1000);
    assert_eq!(p.asset_a.mirrored_balance, 270);
    assert_eq!(p.invariant_k, 270_000);
}

#[test]
fn swap_quote_prices_without_mutation() {
    let p = ready_pool(900, 300);
    let before = p.clone();
    assert_eq!(p.swap_quote(&id("token-a"), &id("token-b"), 100), Ok(30));
    assert_eq!(p, before);
}

#[test]
fn swap_across_decimals() {
    // token-a carries 2 decimals, token-b 0: reserves 900.00 and 300.
    let mut p = ready_pool_decimals(90_000, 2, 300, 0);
    let r = p.swap(&id("alice"), &id("token-a"), &id("token-b"), 10_000).unwrap();
    assert_eq!(
        r,
        LedgerRequest::Transfer { asset: id("token-b"), to: id("alice"), amount: 30 }
    );
    assert_eq!(p.asset_a.mirrored_balance, 100_000);
    assert_eq!(p.asset_b.mirrored_balance, 270);
}

#[test]
fn swap_not_ready_rejected_without_mutation() {
    // token-b's balance query is still outstanding.
    let mut p = PoolState::new(id("owner"), id("token-a"), id("token-b")).unwrap();
    sync_asset(&mut p, "token-a", "Token A", 6, 900);
    p.request_sync(&id("token-b")).unwrap();
    p.on_metadata_response(&id("token-b"), id("Token B"), 6).unwrap();
    assert_eq!(p.asset_b.sync_state, SyncState::BalancePending);

    let before = p.clone();
    let r = p.swap(&id("alice"), &id("token-a"), &id("token-b"), 100);
    assert_eq!(r, Err(PoolError::NotReady));
    assert_eq!(p, before);
}

#[test]
fn swap_against_unfunded_reserve_rejected() {
    // Both assets are Ready but the buy-side reserve is zero: pricing must
    // not run against a zero balance.
    let mut p = ready_pool(900, 0);
    let before = p.clone();
    let r = p.swap(&id("alice"), &id("token-a"), &id("token-b"), 100);
    assert_eq!(r, Err(PoolError::NotReady));
    assert_eq!(p, before);
}

#[test]
fn swap_unknown_or_equal_assets_rejected() {
    let mut p = ready_pool(900, 300);
    let before = p.clone();
    assert_eq!(
        p.swap(&id("alice"), &id("token-c"), &id("token-b"), 100),
        Err(PoolError::UnsupportedAsset)
    );
    assert_eq!(
        p.swap(&id("alice"), &id("token-a"), &id("token-c"), 100),
        Err(PoolError::UnsupportedAsset)
    );
    assert_eq!(
        p.swap(&id("alice"), &id("token-a"), &id("token-a"), 100),
        Err(PoolError::SameAsset)
    );
    assert_eq!(p, before);
}

#[test]
fn swap_tiny_amount_releases_zero() {
    // A very small sell rounds the released amount down to zero: a valid,
    // not-erroneous response, and the sell side is still credited.
    let mut p = ready_pool(1_000_000, 3);
    let r = p.swap(&id("alice"), &id("token-a"), &id("token-b"), 1).unwrap();
    assert_eq!(
        r,
        LedgerRequest::Transfer { asset: id("token-b"), to: id("alice"), amount: 0 }
    );
    assert_eq!(p.asset_a.mirrored_balance, 1_000_001);
    assert_eq!(p.asset_b.mirrored_balance, 3);
}

#[test]
fn owner_first_liquidity_deposit() {
    // The owner deposits 500 units of token-a with no prior balance: the
    // mirror reads 500 and the invariant becomes 500 * mirrored_balance[B].
    let mut p = ready_pool(0, 300);
    p.deposit(&id("owner"), &id("token-a"), 500).unwrap();
    assert_eq!(p.asset_a.mirrored_balance, 500);
    assert_eq!(p.invariant_k, 500 * 300);
}

#[test]
fn deposit() {
    // The owner funds both sides in turn, 10000 of token-a then 5000 of
    // token-b, and the snapshot reflects both mirrors consistently.
    let mut p = ready_pool(0, 0);
    let r = p.on_deposit(&id("owner"), 10_000, &id("token-a:token-b")).unwrap();
    assert_eq!(r, None);
    assert_eq!(p.asset_a.mirrored_balance, 10_000);

    let r = p.on_deposit(&id("owner"), 5_000, &id("token-b:token-a")).unwrap();
    assert_eq!(r, None);
    assert_eq!(p.asset_b.mirrored_balance, 5_000);

    let s = p.describe();
    assert_eq!(s.asset_a.mirrored_balance, 10_000);
    assert_eq!(s.asset_b.mirrored_balance, 5_000);
    assert_eq!(s.invariant_k, 50_000_000);
}

#[test]
fn deposit_by_non_owner_is_unauthorized() {
    let mut p = ready_pool(900, 300);
    let before = p.clone();
    let r = p.deposit(&id("mallory"), &id("token-a"), 500);
    assert_eq!(r, Err(PoolError::Unauthorized));
    assert_eq!(p, before);
}

#[test]
fn deposit_overflow_is_invariant_violation() {
    let mut p = ready_pool(900, 300);
    let before = p.clone();
    let r = p.deposit(&id("owner"), &id("token-a"), u128::MAX);
    assert_eq!(r, Err(PoolError::InvariantViolation));
    assert_eq!(p, before);
}

#[test]
fn on_deposit_swap_path() {
    let mut p = ready_pool(900, 300);
    let r = p.on_deposit(&id("alice"), 100, &id("token-a:token-b")).unwrap();
    assert_eq!(
        r,
        Some(LedgerRequest::Transfer { asset: id("token-b"), to: id("alice"), amount: 30 })
    );
    assert_eq!(p.asset_a.mirrored_balance, 1000);
    assert_eq!(p.asset_b.mirrored_balance, 270);
}

#[test]
fn on_deposit_pending_pair_rejected() {
    // A swap requested while one asset is still BalancePending fails with
    // NotReady and mutates nothing.
    let mut p = PoolState::new(id("owner"), id("token-a"), id("token-b")).unwrap();
    sync_asset(&mut p, "token-a", "Token A", 6, 900);
    p.request_sync(&id("token-b")).unwrap();
    p.on_metadata_response(&id("token-b"), id("Token B"), 6).unwrap();

    let before = p.clone();
    let r = p.on_deposit(&id("alice"), 100, &id("token-a:token-b"));
    assert_eq!(r, Err(PoolError::NotReady));
    assert_eq!(p, before);
}

#[test]
fn on_deposit_malformed_message_rejected() {
    let mut p = ready_pool(900, 300);
    let before = p.clone();
    assert_eq!(
        p.on_deposit(&id("alice"), 100, &id("token-a token-b")),
        Err(PoolError::UnsupportedAsset)
    );
    assert_eq!(
        p.on_deposit(&id("alice"), 100, &id("token-a:token-c")),
        Err(PoolError::UnsupportedAsset)
    );
    assert_eq!(
        p.on_deposit(&id("alice"), 100, &id("token-a:token-a")),
        Err(PoolError::SameAsset)
    );
    assert_eq!(p, before);
}

#[test]
fn stale_balance_response_after_swaps() {
    // Three swaps advance token-a's mirror from 900 to 1200; a stale balance
    // response still carrying 900 then arrives.  Last writer wins: the stale
    // value is applied, and the overwritten mirror is handed back so the
    // revert is visible, not silent.
    let mut p = ready_pool(900, 300);
    p.swap(&id("alice"), &id("token-a"), &id("token-b"), 100).unwrap();
    p.swap(&id("alice"), &id("token-a"), &id("token-b"), 100).unwrap();
    p.swap(&id("alice"), &id("token-a"), &id("token-b"), 100).unwrap();
    assert_eq!(p.asset_a.mirrored_balance, 1200);
    assert_eq!(p.asset_b.mirrored_balance, 226);

    let previous = p.on_balance_response(&id("token-a"), 900).unwrap();
    assert_eq!(previous, 1200);
    assert_eq!(p.asset_a.mirrored_balance, 900);
    assert_eq!(p.asset_b.mirrored_balance, 226);
    assert_eq!(p.invariant_k, 900 * 226);
}

#[test]
fn parse_asset_pair_splits_on_first_colon() {
    let (sell, buy) = parse_asset_pair(&id("token-a:token-b")).unwrap();
    assert_eq!(sell, id("token-a"));
    assert_eq!(buy, id("token-b"));

    let (sell, buy) = parse_asset_pair(&id("a:b:c")).unwrap();
    assert_eq!(sell, id("a"));
    assert_eq!(buy, id("b:c"));

    let (sell, buy) = parse_asset_pair(&id(":b")).unwrap();
    assert_eq!(sell, id(""));
    assert_eq!(buy, id("b"));

    assert_eq!(parse_asset_pair(&id("no separator")), None);
    assert_eq!(parse_asset_pair(&id("")), None);
}
