//! Unit tests for the constant-product price curve.

use amm::engine::{pow10_checked, price, quote};

#[test]
fn price_exact_scenario() {
    // x = 900, y = 300, a = 100: b = (300 * 100) / (900 + 100) = 30.
    assert_eq!(price(900, 300, 100), 30);
}

#[test]
fn price_of_zero_amount_is_zero() {
    assert_eq!(price(900, 300, 0), 0);
    assert_eq!(price(1, 1, 0), 0);
    assert_eq!(price(123_456_789, 987_654_321, 0), 0);
}

#[test]
fn price_monotone_in_amount() {
    let mut previous: u128 = 0;
    for a in 0..2000u128 {
        let b = price(900, 300, a);
        assert!(b >= previous, "price decreased at a = {}", a);
        previous = b;
    }
}

#[test]
fn price_truncates_toward_pool() {
    // x = 10, y = 7, a = 3: exact curve value is 21 / 13 = 1.615..., so the
    // released amount is 1, and b * (x + a) = 13 <= y * a = 21.
    let b = price(10, 7, 3);
    assert_eq!(b, 1);
    assert!(b * (10 + 3) <= 7 * 3);
    // The post-swap product never drops below the pre-swap product.
    assert!((10 + 3) * (7 - b) >= 10 * 7);
}

#[test]
fn price_zero_buy_amount_is_valid() {
    // A tiny sell against a deep pool rounds down to zero: not an error.
    assert_eq!(price(1_000_000, 3, 1), 0);
}

#[test]
fn quote_equal_decimals_matches_price() {
    assert_eq!(quote(900, 300, 100, 6, 6), Some(30));
    assert_eq!(quote(900, 300, 100, 0, 0), Some(30));
}

#[test]
fn quote_cross_decimals_scales_to_common_basis() {
    // Sell side has 2 decimals, buy side 0: reserves 900.00 and 300.
    // Lifted to the common basis: x' = 90000, y' = 30000, a' = 10000,
    // b' = (30000 * 10000) / (90000 + 10000) = 3000, scaled back: 30.
    assert_eq!(quote(90_000, 300, 10_000, 2, 0), Some(30));
    // The mirror image: sell side 0 decimals, buy side 2.
    assert_eq!(quote(900, 30_000, 100, 0, 2), Some(3000));
}

#[test]
fn quote_reports_overflow() {
    // y * a does not fit in u128.
    assert_eq!(quote(1, u128::MAX, u128::MAX, 0, 0), None);
    // The scale factor for a huge decimal gap does not fit either.
    assert_eq!(quote(900, 300, 100, 0, 255), None);
}

#[test]
fn pow10_checked_exact_values() {
    assert_eq!(pow10_checked(0), Some(1));
    assert_eq!(pow10_checked(1), Some(10));
    assert_eq!(pow10_checked(6), Some(1_000_000));
    assert_eq!(pow10_checked(38), Some(100_000_000_000_000_000_000_000_000_000_000_000_000));
    assert_eq!(pow10_checked(39), None);
    assert_eq!(pow10_checked(255), None);
}
