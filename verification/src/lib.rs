//! Accounting and pricing core of a two-asset constant-product liquidity
//! pool.
//!
//! The crate tracks the reserve balances of two fungible assets and a
//! derived liquidity-share supply, and enforces the arithmetic and
//! authorization rules that govern how value enters, exits, or is exchanged
//! within the pool.  Every operation is a pure state transition: it validates
//! its inputs, runs the constant-product curve math, and reports the token
//! movements the surrounding ledger must perform as one atomic unit.

pub mod config;
pub mod curve;
pub mod errors;
pub mod pool;
