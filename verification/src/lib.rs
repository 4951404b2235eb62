//! A verified crowdfunding ledger.
//!
//! The ledger tracks campaigns, per-backer contributions, an append-only loan
//! registry, locked and staked balances, and directed messages, all keyed by
//! participant identity. The hosting runtime supplies the caller's identity
//! and the current time for each call; every rule of the ledger itself is
//! stated in contracts and proved.

pub mod types;
pub mod store;
pub mod ledger;
pub mod laws;
