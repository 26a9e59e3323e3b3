//! A staking-rewards ledger.
//!
//! Participants lock assets for a chosen term and accrue rewards at a rate
//! derived from a whitelisted per-collection base rate and a bonus multiplier
//! tied to the chosen lock tier. A central reward pool never promises more
//! reward than it has been funded with: every reservation, release and claim
//! goes through checked arithmetic, and every operation is all-or-nothing.

pub mod error;
pub mod pool;
pub mod farmer;
pub mod lock;
pub mod receipt;
pub mod whitelist;
pub mod farm;
pub mod ops;
pub mod laws;
