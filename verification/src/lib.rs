//! Accounting core of a constant-product automated market maker.
//!
//! The crate prices trades against a pair of token reserves, computes
//! proportional liquidity shares for deposits and withdrawals, and skims a
//! protocol fee from the growth of the pool invariant `k = reserve0 * reserve1`.
//! Token custody, authorization and notification delivery are external
//! collaborators: every function here is a pure computation over the reserve,
//! supply and amount values that the surrounding system reads from its ledger.

pub mod constant;
pub mod error;
pub mod events;
pub mod math;
pub mod config;
pub mod pool;
pub mod fee;
pub mod liquidity;
pub mod swap;
