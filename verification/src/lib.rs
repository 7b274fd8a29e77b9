//! A custodial token-deposit ledger.
//!
//! One owner is established once, deposits of one designated asset are
//! accepted from any authorized depositor, and a balance is kept per
//! depositor. The ledger state is an explicit value that every entry point
//! takes; the host's authorization answer and the asset-transfer service are
//! handed in by the caller.

pub mod auth;
pub mod contract;
pub mod error;
pub mod identity;
pub mod laws;
pub mod ledger;
pub mod storage;
pub mod token;
