//! Settlement: classifying an inbound deposit and executing swaps.
//!
//! An external ledger notifies the pool of an inbound transfer with the
//! sender, the amount, and a message naming the intended sell/buy asset pair
//! as the two ledger identities joined by a colon.  A deposit from the pool's
//! owner is a liquidity contribution; a deposit from anyone else is a swap
//! request priced on the constant-product curve.  Every rejection happens
//! before any state mutation; a successful swap commits the whole mutation in
//! one step and hands back the outbound transfer the caller must issue.

use vstd::prelude::*;

use crate::asset::{AssetEntry, SyncState, spec_rate_of, bytes_eq};
use crate::engine;
use crate::errors::PoolError;
use crate::pool::{LedgerRequest, PoolState, clone_bytes};
use vstd::arithmetic::mul::lemma_mul_is_commutative;

verus! {

/// The byte that separates the two ledger identities in a deposit message.
pub const PAIR_SEPARATOR: u8 = 58;

/// `i` is the position of the first separator byte in `msg`.
pub open spec fn spec_separator_at(msg: Seq<u8>, i: int) -> bool {
    &&& 0 <= i < msg.len()
    &&& msg[i] == PAIR_SEPARATOR
    &&& forall|j: int| 0 <= j < i ==> msg[j] != PAIR_SEPARATOR
}

/// Whether `msg` contains a separator at all.
pub open spec fn spec_has_separator(msg: Seq<u8>) -> bool {
    exists|i: int| spec_separator_at(msg, i)
}

/// The position of the first separator byte of `msg`, when one exists.
pub open spec fn spec_separator_pos(msg: Seq<u8>) -> int {
    choose|i: int| spec_separator_at(msg, i)
}

/// The sell-asset identity a deposit message names: everything before the
/// first separator.
pub open spec fn spec_msg_sell(msg: Seq<u8>) -> Seq<u8> {
    msg.subrange(0, spec_separator_pos(msg))
}

/// The buy-asset identity a deposit message names: everything after the
/// first separator.
pub open spec fn spec_msg_buy(msg: Seq<u8>) -> Seq<u8> {
    msg.subrange(spec_separator_pos(msg) + 1, msg.len() as int)
}

/// At most one position is the first separator.
proof fn lemma_separator_pos_unique(msg: Seq<u8>, i: int)
    requires
        spec_separator_at(msg, i),
    ensures
        spec_separator_pos(msg) == i,
{
    assert(spec_has_separator(msg));
    let k = spec_separator_pos(msg);
    assert(spec_separator_at(msg, k));
    if k < i {
        assert(msg[k] != PAIR_SEPARATOR);
    } else if i < k {
        assert(msg[i] != PAIR_SEPARATOR);
    }
}

/// Copies the byte range `[lo, hi)` of `v`.
fn subvec(v: &Vec<u8>, lo: usize, hi: usize) -> (r: Vec<u8>)
    requires
        lo <= hi <= v@.len(),
    ensures
        r@ == v@.subrange(lo as int, hi as int),
{
    let mut r: Vec<u8> = Vec::new();
    let mut j: usize = lo;
    while j < hi
        invariant
            lo <= j <= hi <= v@.len(),
            r@ == v@.subrange(lo as int, j as int),
        decreases hi - j,
    {
        r.push(v[j]);
        proof {
            assert(r@ =~= v@.subrange(lo as int, (j + 1) as int));
        }
        j = j + 1;
    }
    r
}

/// Splits a deposit message into the sell and buy ledger identities it
/// names: the bytes before and after its first separator.  A message with no
/// separator names no pair.
pub fn parse_asset_pair(msg: &Vec<u8>) -> (r: Option<(Vec<u8>, Vec<u8>)>)
    ensures
        r is None <==> !spec_has_separator(msg@),
        r is Some ==> {
            &&& r->Some_0.0@ == spec_msg_sell(msg@)
            &&& r->Some_0.1@ == spec_msg_buy(msg@)
        },
{
    let n = msg.len();
    let mut i: usize = 0;
    while i < n && msg[i] != PAIR_SEPARATOR
        invariant
            0 <= i <= n,
            n == msg@.len(),
            forall|j: int| 0 <= j < i ==> msg@[j] != PAIR_SEPARATOR,
        decreases n - i,
    {
        i = i + 1;
    }
    if i == n {
        proof {
            assert(!spec_has_separator(msg@)) by {
                assert forall|p: int| !spec_separator_at(msg@, p) by {
                    if 0 <= p < msg@.len() {
                        assert(msg@[p] != PAIR_SEPARATOR);
                    }
                }
            }
        }
        return None;
    }
    proof {
        lemma_separator_pos_unique(msg@, i as int);
    }
    let sell = subvec(msg, 0, i);
    let buy = subvec(msg, i + 1, n);
    Some((sell, buy))
}

impl PoolState {
    /// Whether `id` names one of the pool's two assets.
    pub fn has_asset(&self, id: &Vec<u8>) -> (r: bool)
        ensures
            r == self.spec_has_asset(id@),
    {
        bytes_eq(id, &self.asset_a.ledger_id) || bytes_eq(id, &self.asset_b.ledger_id)
    }

    /// Both legs of the pair are fully synchronized and funded: each is
    /// `Ready` and mirrors a positive reserve.  Pricing must never read a
    /// stale or zero balance, so a swap against anything less is rejected
    /// as `NotReady`.
    pub open spec fn spec_swap_ready(self, sell: Seq<u8>, buy: Seq<u8>) -> bool {
        &&& self.spec_asset(sell).sync_state == SyncState::Ready
        &&& self.spec_asset(buy).sync_state == SyncState::Ready
        &&& self.spec_asset(sell).mirrored_balance > 0
        &&& self.spec_asset(buy).mirrored_balance > 0
    }

    /// The buy amount a swap of `amount` along `sell -> buy` releases.
    pub open spec fn spec_swap_b(self, sell: Seq<u8>, buy: Seq<u8>, amount: nat) -> nat {
        engine::spec_quote(
            self.spec_asset(sell).mirrored_balance as nat,
            self.spec_asset(buy).mirrored_balance as nat,
            amount,
            self.spec_asset(sell).decimals as nat,
            self.spec_asset(buy).decimals as nat,
        )
    }

    /// Whether executing the swap would overflow `u128` somewhere: in the
    /// quote itself, in the new sell-side reserve, or in the recomputed
    /// invariant.
    pub open spec fn spec_swap_overflows(self, sell: Seq<u8>, buy: Seq<u8>, amount: nat) -> bool {
        let x = self.spec_asset(sell).mirrored_balance;
        let y = self.spec_asset(buy).mirrored_balance;
        let b = self.spec_swap_b(sell, buy, amount);
        ||| engine::spec_quote_overflows(
            x as nat,
            y as nat,
            amount,
            self.spec_asset(sell).decimals as nat,
            self.spec_asset(buy).decimals as nat,
        )
        ||| x + amount > u128::MAX
        ||| (x + amount) * (y - b) > u128::MAX
    }

    /// The pool after the swap commits: the sell reserve grows by `amount`,
    /// the buy reserve shrinks by the released amount, and the cached
    /// invariant is recomputed from the two new reserves.
    pub open spec fn spec_after_swap(self, sell: Seq<u8>, buy: Seq<u8>, amount: nat) -> PoolState {
        let se = self.spec_asset(sell);
        let be = self.spec_asset(buy);
        let x = se.mirrored_balance;
        let y = be.mirrored_balance;
        let b = self.spec_swap_b(sell, buy, amount);
        let k = ((x + amount) * (y - b)) as u128;
        self.spec_set_asset(
            sell,
            (AssetEntry {
                mirrored_balance: (x + amount) as u128,
                rate: spec_rate_of(x, (x + amount) as u128),
                ..se
            }),
            k,
        ).spec_set_asset(
            buy,
            (AssetEntry {
                mirrored_balance: (y - b) as u128,
                rate: spec_rate_of(y, (y - b) as u128),
                ..be
            }),
            k,
        )
    }

    /// Prices a swap of `amount` along `sell_id -> buy_id` without mutating
    /// anything: the same classification ladder as `swap`, so a quote
    /// succeeds exactly when the swap itself would.
    pub fn swap_quote(&self, sell_id: &Vec<u8>, buy_id: &Vec<u8>, amount: u128) -> (r: Result<
        u128,
        PoolError,
    >)
        requires
            amount > 0,
        ensures
            !self.spec_has_asset(sell_id@) || !self.spec_has_asset(buy_id@) ==> r == Err::<
                u128,
                PoolError,
            >(PoolError::UnsupportedAsset),
            self.spec_has_asset(sell_id@) && self.spec_has_asset(buy_id@) && sell_id@ == buy_id@
                ==> r == Err::<u128, PoolError>(PoolError::SameAsset),
            self.spec_has_asset(sell_id@) && self.spec_has_asset(buy_id@) && sell_id@ != buy_id@
                && !self.spec_swap_ready(sell_id@, buy_id@) ==> r == Err::<u128, PoolError>(
                PoolError::NotReady,
            ),
            self.spec_has_asset(sell_id@) && self.spec_has_asset(buy_id@) && sell_id@ != buy_id@
                && self.spec_swap_ready(sell_id@, buy_id@) && self.spec_swap_overflows(
                sell_id@,
                buy_id@,
                amount as nat,
            ) ==> r == Err::<u128, PoolError>(PoolError::InvariantViolation),
            self.spec_has_asset(sell_id@) && self.spec_has_asset(buy_id@) && sell_id@ != buy_id@
                && self.spec_swap_ready(sell_id@, buy_id@) && !self.spec_swap_overflows(
                sell_id@,
                buy_id@,
                amount as nat,
            ) ==> {
                &&& r == Ok::<u128, PoolError>(
                    (self.spec_swap_b(sell_id@, buy_id@, amount as nat)) as u128,
                )
                &&& self.spec_swap_b(sell_id@, buy_id@, amount as nat) < self.spec_asset(
                    buy_id@,
                ).mirrored_balance
            },
    {
        if !self.has_asset(sell_id) || !self.has_asset(buy_id) {
            return Err(PoolError::UnsupportedAsset);
        }
        if bytes_eq(sell_id, buy_id) {
            return Err(PoolError::SameAsset);
        }
        let sell_is_a = bytes_eq(sell_id, &self.asset_a.ledger_id);
        let x = if sell_is_a {
            self.asset_a.mirrored_balance
        } else {
            self.asset_b.mirrored_balance
        };
        let ds = if sell_is_a {
            self.asset_a.decimals
        } else {
            self.asset_b.decimals
        };
        let sell_ready = if sell_is_a {
            self.asset_a.sync_state == SyncState::Ready
        } else {
            self.asset_b.sync_state == SyncState::Ready
        };
        let y = if sell_is_a {
            self.asset_b.mirrored_balance
        } else {
            self.asset_a.mirrored_balance
        };
        let db = if sell_is_a {
            self.asset_b.decimals
        } else {
            self.asset_a.decimals
        };
        let buy_ready = if sell_is_a {
            self.asset_b.sync_state == SyncState::Ready
        } else {
            self.asset_a.sync_state == SyncState::Ready
        };
        if !(sell_ready && buy_ready && x > 0 && y > 0) {
            return Err(PoolError::NotReady);
        }
        let b = match engine::quote(x, y, amount, ds, db) {
            Some(b) => b,
            None => { return Err(PoolError::InvariantViolation); },
        };
        let new_sell = match x.checked_add(amount) {
            Some(v) => v,
            None => { return Err(PoolError::InvariantViolation); },
        };
        let new_buy = y - b;
        match new_sell.checked_mul(new_buy) {
            Some(_) => Ok(b),
            None => Err(PoolError::InvariantViolation),
        }
    }

    /// Executes a swap: `amount` units of the sell asset were deposited with
    /// the pool, and the released buy amount is to be transferred to
    /// `recipient`.
    ///
    /// On success the returned request is the outbound transfer the caller
    /// must issue; the request is fire-and-forget, and a later failure of
    /// that transfer is reported through `on_transfer_failure`, never rolled
    /// back.  On any error the pool is left exactly as it was.
    pub fn swap(
        &mut self,
        recipient: &Vec<u8>,
        sell_id: &Vec<u8>,
        buy_id: &Vec<u8>,
        amount: u128,
    ) -> (r: Result<LedgerRequest, PoolError>)
        requires
            amount > 0,
        ensures
            !old(self).spec_has_asset(sell_id@) || !old(self).spec_has_asset(buy_id@) ==> r
                == Err::<LedgerRequest, PoolError>(PoolError::UnsupportedAsset),
            old(self).spec_has_asset(sell_id@) && old(self).spec_has_asset(buy_id@) && sell_id@
                == buy_id@ ==> r == Err::<LedgerRequest, PoolError>(PoolError::SameAsset),
            old(self).spec_has_asset(sell_id@) && old(self).spec_has_asset(buy_id@) && sell_id@
                != buy_id@ && !old(self).spec_swap_ready(sell_id@, buy_id@) ==> r == Err::<
                LedgerRequest,
                PoolError,
            >(PoolError::NotReady),
            old(self).spec_has_asset(sell_id@) && old(self).spec_has_asset(buy_id@) && sell_id@
                != buy_id@ && old(self).spec_swap_ready(sell_id@, buy_id@) && old(
                self,
            ).spec_swap_overflows(sell_id@, buy_id@, amount as nat) ==> r == Err::<
                LedgerRequest,
                PoolError,
            >(PoolError::InvariantViolation),
            r is Err ==> *final(self) == *old(self),
            old(self).spec_has_asset(sell_id@) && old(self).spec_has_asset(buy_id@) && sell_id@
                != buy_id@ && old(self).spec_swap_ready(sell_id@, buy_id@) && !old(
                self,
            ).spec_swap_overflows(sell_id@, buy_id@, amount as nat) ==> {
                &&& r is Ok
                &&& (r->Ok_0 matches LedgerRequest::Transfer { asset, to, amount: released } && {
                    &&& asset@ == buy_id@
                    &&& to@ == recipient@
                    &&& released == old(self).spec_swap_b(sell_id@, buy_id@, amount as nat)
                })
                &&& *final(self) == old(self).spec_after_swap(sell_id@, buy_id@, amount as nat)
            },
            old(self).spec_wf() ==> final(self).spec_wf(),
    {
        let b = match self.swap_quote(sell_id, buy_id, amount) {
            Ok(b) => b,
            Err(e) => { return Err(e); },
        };
        let sell_is_a = bytes_eq(sell_id, &self.asset_a.ledger_id);
        let x = if sell_is_a {
            self.asset_a.mirrored_balance
        } else {
            self.asset_b.mirrored_balance
        };
        let y = if sell_is_a {
            self.asset_b.mirrored_balance
        } else {
            self.asset_a.mirrored_balance
        };
        let new_sell = x + amount;
        let new_buy = y - b;
        let new_k = new_sell * new_buy;
        if sell_is_a {
            self.asset_a.set_balance(new_sell);
            self.asset_b.set_balance(new_buy);
        } else {
            self.asset_b.set_balance(new_sell);
            self.asset_a.set_balance(new_buy);
        }
        self.invariant_k = new_k;
        proof {
            lemma_mul_is_commutative(new_sell as int, new_buy as int);
        }
        Ok(LedgerRequest::Transfer {
            asset: clone_bytes(buy_id),
            to: clone_bytes(recipient),
            amount: b,
        })
    }
}

impl PoolState {
    /// Whether crediting `amount` to the asset `id` names would overflow the
    /// mirrored balance or the recomputed invariant.
    pub open spec fn spec_deposit_overflows(self, id: Seq<u8>, amount: nat) -> bool {
        let bal = self.spec_asset(id).mirrored_balance;
        let other = self.spec_other_asset(id).mirrored_balance;
        ||| bal + amount > u128::MAX
        ||| (bal + amount) * other > u128::MAX
    }

    /// The pool after the owner's liquidity contribution: the named asset's
    /// reserve grows by `amount` and the cached invariant is recomputed.
    pub open spec fn spec_after_deposit(self, id: Seq<u8>, amount: nat) -> PoolState {
        let e = self.spec_asset(id);
        let bal = e.mirrored_balance;
        let other = self.spec_other_asset(id).mirrored_balance;
        self.spec_set_asset(
            id,
            (AssetEntry {
                mirrored_balance: (bal + amount) as u128,
                rate: spec_rate_of(bal, (bal + amount) as u128),
                ..e
            }),
            ((bal + amount) * other) as u128,
        )
    }

    /// Credits an owner liquidity contribution of `amount` units of the
    /// asset `asset_id` names.  Only the owner may top up reserves; no
    /// outbound transfer results, and the swap curve is never consulted.
    pub fn deposit(&mut self, caller: &Vec<u8>, asset_id: &Vec<u8>, amount: u128) -> (r: Result<
        (),
        PoolError,
    >)
        ensures
            caller@ != old(self).owner@ ==> r == Err::<(), PoolError>(PoolError::Unauthorized),
            caller@ == old(self).owner@ && !old(self).spec_has_asset(asset_id@) ==> r == Err::<
                (),
                PoolError,
            >(PoolError::UnsupportedAsset),
            caller@ == old(self).owner@ && old(self).spec_has_asset(asset_id@) && old(
                self,
            ).spec_deposit_overflows(asset_id@, amount as nat) ==> r == Err::<(), PoolError>(
                PoolError::InvariantViolation,
            ),
            r is Err ==> *final(self) == *old(self),
            caller@ == old(self).owner@ && old(self).spec_has_asset(asset_id@) && !old(
                self,
            ).spec_deposit_overflows(asset_id@, amount as nat) ==> {
                &&& r is Ok
                &&& *final(self) == old(self).spec_after_deposit(asset_id@, amount as nat)
            },
            old(self).spec_wf() ==> final(self).spec_wf(),
    {
        if !bytes_eq(caller, &self.owner) {
            return Err(PoolError::Unauthorized);
        }
        if !self.has_asset(asset_id) {
            return Err(PoolError::UnsupportedAsset);
        }
        let is_a = bytes_eq(asset_id, &self.asset_a.ledger_id);
        let bal = if is_a {
            self.asset_a.mirrored_balance
        } else {
            self.asset_b.mirrored_balance
        };
        let other = if is_a {
            self.asset_b.mirrored_balance
        } else {
            self.asset_a.mirrored_balance
        };
        let new_bal = match bal.checked_add(amount) {
            Some(v) => v,
            None => { return Err(PoolError::InvariantViolation); },
        };
        let new_k = match new_bal.checked_mul(other) {
            Some(v) => v,
            None => { return Err(PoolError::InvariantViolation); },
        };
        if is_a {
            self.asset_a.set_balance(new_bal);
        } else {
            self.asset_b.set_balance(new_bal);
        }
        self.invariant_k = new_k;
        proof {
            lemma_mul_is_commutative(new_bal as int, other as int);
        }
        Ok(())
    }

    /// Handles an inbound-transfer notification from one of the ledgers:
    /// `sender` deposited `amount` units of the message's sell asset with
    /// the pool.
    ///
    /// A deposit from the owner is a liquidity contribution and yields no
    /// outbound request; a deposit from anyone else is a swap request and,
    /// on success, yields the outbound transfer of the bought amount to the
    /// sender.  A message that names no pair, or names a ledger outside this
    /// pool, is rejected as `UnsupportedAsset`; every rejection leaves the
    /// pool untouched — the consumed inbound deposit itself lives on the
    /// external ledger and is the caller's concern.
    pub fn on_deposit(&mut self, sender: &Vec<u8>, amount: u128, msg: &Vec<u8>) -> (r: Result<
        Option<LedgerRequest>,
        PoolError,
    >)
        requires
            amount > 0,
        ensures
            !spec_has_separator(msg@) ==> {
                &&& r == Err::<Option<LedgerRequest>, PoolError>(PoolError::UnsupportedAsset)
                &&& *final(self) == *old(self)
            },
            spec_has_separator(msg@) ==> {
                let sell = spec_msg_sell(msg@);
                let buy = spec_msg_buy(msg@);
                &&& (!old(self).spec_has_asset(sell) || !old(self).spec_has_asset(buy)) ==> r
                    == Err::<Option<LedgerRequest>, PoolError>(PoolError::UnsupportedAsset)
                &&& (old(self).spec_has_asset(sell) && old(self).spec_has_asset(buy) && sell
                    == buy) ==> r == Err::<Option<LedgerRequest>, PoolError>(PoolError::SameAsset)
                &&& (old(self).spec_has_asset(sell) && old(self).spec_has_asset(buy) && sell
                    != buy && sender@ == old(self).owner@) ==> {
                    &&& old(self).spec_deposit_overflows(sell, amount as nat) ==> r == Err::<
                        Option<LedgerRequest>,
                        PoolError,
                    >(PoolError::InvariantViolation)
                    &&& !old(self).spec_deposit_overflows(sell, amount as nat) ==> {
                        &&& r == Ok::<Option<LedgerRequest>, PoolError>(None)
                        &&& *final(self) == old(self).spec_after_deposit(sell, amount as nat)
                    }
                }
                &&& (old(self).spec_has_asset(sell) && old(self).spec_has_asset(buy) && sell
                    != buy && sender@ != old(self).owner@) ==> {
                    &&& !old(self).spec_swap_ready(sell, buy) ==> r == Err::<
                        Option<LedgerRequest>,
                        PoolError,
                    >(PoolError::NotReady)
                    &&& old(self).spec_swap_ready(sell, buy) && old(self).spec_swap_overflows(
                        sell,
                        buy,
                        amount as nat,
                    ) ==> r == Err::<Option<LedgerRequest>, PoolError>(
                        PoolError::InvariantViolation,
                    )
                    &&& old(self).spec_swap_ready(sell, buy) && !old(self).spec_swap_overflows(
                        sell,
                        buy,
                        amount as nat,
                    ) ==> {
                        &&& r is Ok
                        &&& r->Ok_0 is Some
                        &&& (r->Ok_0->Some_0 matches LedgerRequest::Transfer {
                            asset,
                            to,
                            amount: released,
                        } && {
                            &&& asset@ == buy
                            &&& to@ == sender@
                            &&& released == old(self).spec_swap_b(sell, buy, amount as nat)
                        })
                        &&& *final(self) == old(self).spec_after_swap(sell, buy, amount as nat)
                    }
                }
            },
            r is Err ==> *final(self) == *old(self),
            old(self).spec_wf() ==> final(self).spec_wf(),
    {
        let parsed = match parse_asset_pair(msg) {
            Some(p) => p,
            None => { return Err(PoolError::UnsupportedAsset); },
        };
        let (sell_id, buy_id) = parsed;
        if !self.has_asset(&sell_id) || !self.has_asset(&buy_id) {
            return Err(PoolError::UnsupportedAsset);
        }
        if bytes_eq(&sell_id, &buy_id) {
            return Err(PoolError::SameAsset);
        }
        if bytes_eq(sender, &self.owner) {
            match self.deposit(sender, &sell_id, amount) {
                Ok(()) => Ok(None),
                Err(e) => Err(e),
            }
        } else {
            match self.swap(sender, &sell_id, &buy_id, amount) {
                Ok(req) => Ok(Some(req)),
                Err(e) => Err(e),
            }
        }
    }
}

} // verus!
