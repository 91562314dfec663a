//! Pricing-and-settlement core of a two-asset constant-product market maker.
//!
//! The pool mirrors the balances of two fungible assets whose ground truth
//! lives on external ledgers reachable only through asynchronous
//! request/response exchanges.  This crate holds the verified core: the
//! constant-product price curve, the balance-synchronization state machine,
//! and the settlement logic that classifies inbound deposits.  All I/O is the
//! caller's concern: handlers take plain values and hand back the actions the
//! caller must perform against the ledgers.

pub mod asset;
pub mod engine;
pub mod errors;
pub mod laws;
pub mod pool;
pub mod settle;
pub mod sync;
