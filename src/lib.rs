//! Verified core of a cross-chain bridge: canonical checkpoint and batch
//! hashing, power-weighted quorum checks, and the nonce-ordered admission of
//! deposits and outbound batches.

pub mod bridge;
pub mod crypto;
pub mod encoding;
pub mod error;
pub mod laws;
pub mod ledger;
pub mod quorum;
