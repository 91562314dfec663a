//! The constant-product price curve.
//!
//! Pure arithmetic, no I/O: given the mirrored reserve `x` of the asset being
//! sold to the pool, the mirrored reserve `y` of the asset being bought, and a
//! sell amount `a`, the pool releases `b = (y * a) / (x + a)` units of the buy
//! asset.  The division truncates toward zero, which always favors the pool.
//!
//! When the two assets disagree on decimal places, reserves and amounts are
//! first scaled to the finer of the two unit bases, the curve is applied
//! there, and the result is scaled back to the buy asset's native unit —
//! again truncating in the pool's favor.

use vstd::prelude::*;

use vstd::arithmetic::div_mod::{
    lemma_div_basics, lemma_div_is_ordered, lemma_div_multiples_vanish,
    lemma_fundamental_div_mod, lemma_mod_bound, lemma_multiply_divide_le,
    lemma_multiply_divide_lt,
};
use vstd::arithmetic::mul::{lemma_mul_basics, lemma_mul_is_commutative};

verus! {

/// The buy amount the curve yields: `(y * a) / (x + a)`, truncated.
///
/// Meaningful whenever `x + a > 0`; callers establish `x > 0`.
pub open spec fn spec_price(x: nat, y: nat, a: nat) -> nat {
    (y * a) / (x + a)
}

/// Computes the buy amount on the constant-product curve for two assets that
/// share one unit basis.
///
/// The formula is evaluated as `(y * a) / (x + a)` rather than
/// `y - (x * y) / (x + a)`: the two agree up to the truncation bounds proved
/// in `lemma_swap_preserves_product`, and the former avoids the larger
/// intermediate product `x * y`.
pub fn price(x: u128, y: u128, a: u128) -> (b: u128)
    requires
        x > 0,
        y > 0,
        y * a <= u128::MAX,
        x + a <= u128::MAX,
    ensures
        b == spec_price(x as nat, y as nat, a as nat),
        b < y,
{
    proof {
        lemma_price_lt_buy_reserve(x as nat, y as nat, a as nat);
    }
    (y * a) / (x + a)
}

/// Ten to the power `e`: the scale factor between unit bases that differ by
/// `e` decimal places.
pub open spec fn pow10(e: nat) -> nat
    decreases e,
{
    if e == 0 {
        1
    } else {
        10 * pow10((e - 1) as nat)
    }
}

/// `pow10` is at least one: scaling never collapses an amount to nothing.
pub proof fn lemma_pow10_pos(e: nat)
    ensures
        pow10(e) >= 1,
    decreases e,
{
    if e > 0 {
        lemma_pow10_pos((e - 1) as nat);
    }
}

/// `pow10` is monotone in the exponent.
pub proof fn lemma_pow10_increases(a: nat, b: nat)
    requires
        a <= b,
    ensures
        pow10(a) <= pow10(b),
    decreases b,
{
    if a < b {
        lemma_pow10_increases(a, (b - 1) as nat);
        lemma_pow10_pos((b - 1) as nat);
    }
}

/// Computes `10^e` when it fits in `u128`.
pub fn pow10_checked(e: u8) -> (r: Option<u128>)
    ensures
        pow10(e as nat) <= u128::MAX ==> r == Some((pow10(e as nat)) as u128),
        pow10(e as nat) > u128::MAX ==> r is None,
{
    let mut acc: u128 = 1;
    let mut i: u8 = 0;
    while i < e
        invariant
            0 <= i <= e,
            acc == pow10(i as nat),
        decreases e - i,
    {
        match acc.checked_mul(10) {
            Some(v) => {
                acc = v;
                i = i + 1;
            },
            None => {
                proof {
                    assert(pow10((i + 1) as nat) == 10 * pow10(i as nat));
                    lemma_pow10_increases((i + 1) as nat, e as nat);
                }
                return None;
            },
        }
    }
    Some(acc)
}

/// The scale factor that lifts the asset with `d` decimals to the common
/// basis of two assets with `dx` and `dy` decimals: ten to the difference
/// between `max(dx, dy)` and `d`.
pub open spec fn spec_scale(dx: nat, dy: nat, d: nat) -> nat {
    if dx > dy {
        pow10((dx - d) as nat)
    } else {
        pow10((dy - d) as nat)
    }
}

/// The buy amount for assets with `dx` (sell side) and `dy` (buy side)
/// decimal places: reserves and sell amount are lifted to the common basis,
/// the curve is applied there, and the result is scaled back down to the buy
/// asset's native unit, truncating.
pub open spec fn spec_quote(x: nat, y: nat, a: nat, dx: nat, dy: nat) -> nat {
    let fx = spec_scale(dx, dy, dx);
    let fy = spec_scale(dx, dy, dy);
    spec_price(x * fx, y * fy, a * fx) / fy
}

/// Whether computing `spec_quote` over `u128` values would overflow at some
/// intermediate step.
pub open spec fn spec_quote_overflows(x: nat, y: nat, a: nat, dx: nat, dy: nat) -> bool {
    let fx = spec_scale(dx, dy, dx);
    let fy = spec_scale(dx, dy, dy);
    ||| fx > u128::MAX
    ||| fy > u128::MAX
    ||| x * fx > u128::MAX
    ||| a * fx > u128::MAX
    ||| y * fy > u128::MAX
    ||| x * fx + a * fx > u128::MAX
    ||| (y * fy) * (a * fx) > u128::MAX
}

/// Computes the buy amount across unit bases, or reports that an
/// intermediate value would not fit in `u128`.
pub fn quote(x: u128, y: u128, a: u128, dx: u8, dy: u8) -> (r: Option<u128>)
    requires
        x > 0,
        y > 0,
    ensures
        r is None <==> spec_quote_overflows(x as nat, y as nat, a as nat, dx as nat, dy as nat),
        r is Some ==> r->0 == spec_quote(x as nat, y as nat, a as nat, dx as nat, dy as nat),
        r is Some ==> r->0 < y,
{
    let ex: u8 = if dx > dy { 0 } else { dy - dx };
    let ey: u8 = if dx > dy { dx - dy } else { 0 };
    let fx = match pow10_checked(ex) {
        Some(v) => v,
        None => { return None; },
    };
    let fy = match pow10_checked(ey) {
        Some(v) => v,
        None => { return None; },
    };
    let xs = match x.checked_mul(fx) {
        Some(v) => v,
        None => { return None; },
    };
    let as_ = match a.checked_mul(fx) {
        Some(v) => v,
        None => { return None; },
    };
    let ys = match y.checked_mul(fy) {
        Some(v) => v,
        None => { return None; },
    };
    let num = match ys.checked_mul(as_) {
        Some(v) => v,
        None => { return None; },
    };
    let den = match xs.checked_add(as_) {
        Some(v) => v,
        None => { return None; },
    };
    proof {
        lemma_pow10_pos(ex as nat);
        lemma_pow10_pos(ey as nat);
        assert(xs >= 1) by (nonlinear_arith)
            requires xs == x * fx, x >= 1, fx >= 1,
        ;
        lemma_quote_lt_buy_reserve(x as nat, y as nat, a as nat, dx as nat, dy as nat);
    }
    let scaled = num / den;
    Some(scaled / fy)
}

/// The quoted buy amount stays strictly below the buy-side reserve, whatever
/// the two assets' decimal places.
pub proof fn lemma_quote_lt_buy_reserve(x: nat, y: nat, a: nat, dx: nat, dy: nat)
    requires
        x > 0,
        y > 0,
    ensures
        spec_quote(x, y, a, dx, dy) < y,
{
    let fx = spec_scale(dx, dy, dx);
    let fy = spec_scale(dx, dy, dy);
    lemma_pow10_pos(if dx > dy { 0 } else { (dy - dx) as nat });
    lemma_pow10_pos(if dx > dy { (dx - dy) as nat } else { 0 });
    assert(x * fx >= 1) by (nonlinear_arith)
        requires x >= 1, fx >= 1,
    ;
    assert(y * fy >= 1) by (nonlinear_arith)
        requires y >= 1, fy >= 1,
    ;
    let bs = spec_price(x * fx, y * fy, a * fx);
    lemma_price_lt_buy_reserve(x * fx, y * fy, a * fx);
    assert(bs < y * fy);
    assert(bs < fy * y) by {
        lemma_mul_is_commutative(y as int, fy as int);
    }
    assert(bs / fy < y) by {
        lemma_multiply_divide_lt(bs as int, fy as int, y as int);
    }
}

/// The truncated quotient `(y * a) / (x + a)` is strictly below `y` whenever
/// `x > 0` and `y > 0`: the pool never releases its whole buy-side reserve.
pub proof fn lemma_price_lt_buy_reserve(x: nat, y: nat, a: nat)
    requires
        x > 0,
        y > 0,
    ensures
        spec_price(x, y, a) < y,
{
    let s = x + a;
    assert(y * a < s * y) by (nonlinear_arith)
        requires x > 0, y > 0, s == x + a,
    ;
    assert((y * a) / s < y) by {
        lemma_multiply_divide_lt((y * a) as int, s as int, y as int);
    }
}

/// With equal decimal places no scaling happens: the cross-basis quote is
/// the plain constant-product price.
pub proof fn lemma_quote_equal_decimals(x: nat, y: nat, a: nat, d: nat)
    ensures
        spec_quote(x, y, a, d, d) == spec_price(x, y, a),
{
    let fx = spec_scale(d, d, d);
    assert(fx == 1);
    lemma_mul_basics(x as int);
    lemma_mul_basics(y as int);
    lemma_mul_basics(a as int);
    lemma_div_basics(spec_price(x, y, a) as int);
}

/// Selling nothing buys nothing: `price(x, y, 0) == 0`.
pub proof fn lemma_price_of_zero(x: nat, y: nat)
    requires
        x > 0,
    ensures
        spec_price(x, y, 0) == 0,
{
    lemma_mul_basics(y as int);
    vstd::arithmetic::div_mod::lemma_div_of0(x as int);
}

/// The curve is monotone in the sell amount: selling more never buys less.
pub proof fn lemma_price_monotone(x: nat, y: nat, a1: nat, a2: nat)
    requires
        x > 0,
        a1 <= a2,
    ensures
        spec_price(x, y, a1) <= spec_price(x, y, a2),
{
    let s1 = (x + a1) as int;
    let s2 = (x + a2) as int;
    let q1 = spec_price(x, y, a1) as int;
    let n1 = (y * a1) as int;
    let n2 = (y * a2) as int;

    lemma_fundamental_div_mod(n1, s1);
    lemma_mod_bound(n1, s1);
    assert(q1 * s1 <= n1) by (nonlinear_arith)
        requires n1 == s1 * q1 + n1 % s1, 0 <= n1 % s1,
    ;

    assert(n1 <= s1 * y) by (nonlinear_arith)
        requires n1 == y * a1, s1 == x + a1, x > 0, y >= 0, a1 >= 0,
    ;
    lemma_multiply_divide_le(n1, s1, y as int);
    assert(q1 <= y);

    assert(q1 * s2 <= n2) by (nonlinear_arith)
        requires
            q1 * s1 <= n1,
            q1 <= y,
            0 <= q1,
            s2 == s1 + (a2 - a1),
            n1 == y * a1,
            n2 == y * a2,
            a1 <= a2,
    ;

    lemma_div_is_ordered(q1 * s2, n2, s2);
    lemma_div_multiples_vanish(q1, s2);
    assert((s2 * q1) / s2 == q1);
    assert(q1 * s2 == s2 * q1) by (nonlinear_arith);
    assert(q1 <= n2 / s2);
}

/// The two algebraic forms of the curve agree up to one truncation unit:
/// the computed `(y * a) / (x + a)` never exceeds `y - (x * y) / (x + a)`
/// and falls below it by at most one, the deficit always at the trader's
/// expense, never the pool's.
pub proof fn lemma_price_forms_agree(x: nat, y: nat, a: nat)
    requires
        x > 0,
        y > 0,
    ensures
        y - (x * y) / (x + a) - 1 <= spec_price(x, y, a) <= y - (x * y) / (x + a),
{
    let s = (x + a) as int;
    let n = (x * y) as int;
    let q = n / s;
    lemma_fundamental_div_mod(n, s);
    lemma_mod_bound(n, s);
    let r = n % s;
    assert((y * a) as int == s * (y - q) - r) by (nonlinear_arith)
        requires n == s * q + r, s == x + a, n == x * y,
    ;
    if r == 0 {
        lemma_div_multiples_vanish(y - q, s);
        assert((s * (y - q)) / s == y - q);
    } else {
        assert((y * a) as int == s * (y - q - 1) + (s - r)) by (nonlinear_arith)
            requires (y * a) as int == s * (y - q) - r,
        ;
        vstd::arithmetic::div_mod::lemma_fundamental_div_mod_converse(
            (y * a) as int,
            s,
            y - q - 1,
            s - r,
        );
    }
}

/// After a swap of `a` at reserves `x`, `y`, the released amount
/// `b = spec_price(x, y, a)` is the rounded-down solution of the
/// constant-product equation: `b` never exceeds the exact curve value, the
/// post-swap product `(x + a) * (y - b)` never drops below `x * y`, and it
/// overshoots it by less than one sell-side unit of the new reserve.
pub proof fn lemma_swap_preserves_product(x: nat, y: nat, a: nat)
    requires
        x > 0,
        y > 0,
    ensures
        spec_price(x, y, a) * (x + a) <= y * a,
        x * y <= (x + a) * (y - spec_price(x, y, a)),
        (x + a) * (y - spec_price(x, y, a)) < x * y + (x + a),
{
    let s = (x + a) as int;
    let b = spec_price(x, y, a) as int;
    let n = (y * a) as int;
    lemma_fundamental_div_mod(n, s);
    lemma_mod_bound(n, s);
    let r = n % s;
    assert(b * s <= n) by (nonlinear_arith)
        requires n == s * b + r, 0 <= r,
    ;
    lemma_price_lt_buy_reserve(x, y, a);
    assert(s * (y - b) == x * y + r) by (nonlinear_arith)
        requires n == s * b + r, n == y * a, s == x + a,
    ;
    assert(b * (x + a) == b * s) by (nonlinear_arith)
        requires s == x + a,
    ;
}

} // verus!
