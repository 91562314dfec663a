//! Cross-function laws of the pool, stated and proved once so a reader sees
//! them spelled out rather than having to derive them from the individual
//! contracts.

use vstd::prelude::*;

use crate::engine::{
    lemma_price_lt_buy_reserve, lemma_quote_equal_decimals, lemma_swap_preserves_product,
    spec_price,
};
use crate::pool::PoolState;

verus! {

/// After any successful swap between assets that share one unit basis, the
/// reserve product is preserved up to truncation, and the truncation always
/// favors the pool: with `x`, `y` the reserves before the swap, `a` the sell
/// amount and `b` the released buy amount,
/// `x * y <= (x + a) * (y - b) < x * y + (x + a)`, and
/// `b * (x + a) <= y * a`, so `b` is the exact curve solution rounded down.
/// The committed state carries exactly the reserves `x + a` and `y - b` and
/// the recomputed invariant `(x + a) * (y - b)`.
pub proof fn lemma_swap_preserves_invariant(
    pre: PoolState,
    sell: Seq<u8>,
    buy: Seq<u8>,
    amount: nat,
)
    requires
        pre.spec_has_asset(sell),
        pre.spec_has_asset(buy),
        sell != buy,
        pre.spec_swap_ready(sell, buy),
        !pre.spec_swap_overflows(sell, buy, amount),
        pre.spec_asset(sell).decimals == pre.spec_asset(buy).decimals,
    ensures
        ({
            let x = pre.spec_asset(sell).mirrored_balance as nat;
            let y = pre.spec_asset(buy).mirrored_balance as nat;
            let b = pre.spec_swap_b(sell, buy, amount);
            let post = pre.spec_after_swap(sell, buy, amount);
            &&& b == spec_price(x, y, amount)
            &&& b * (x + amount) <= y * amount
            &&& x * y <= (x + amount) * (y - b)
            &&& (x + amount) * (y - b) < x * y + (x + amount)
            &&& post.spec_asset(sell).mirrored_balance == x + amount
            &&& post.spec_asset(buy).mirrored_balance == y - b
            &&& post.invariant_k == (x + amount) * (y - b)
        }),
{
    let x = pre.spec_asset(sell).mirrored_balance as nat;
    let y = pre.spec_asset(buy).mirrored_balance as nat;
    let d = pre.spec_asset(sell).decimals as nat;
    lemma_quote_equal_decimals(x, y, amount, d);
    lemma_swap_preserves_product(x, y, amount);
    lemma_price_lt_buy_reserve(x, y, amount);
}

} // verus!
