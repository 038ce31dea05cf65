//! Accounting and pricing core of a binary-outcome prediction market.
//!
//! Users deposit value behind one of two outcomes of a market, may partially
//! exit before the market ends at a price set by a constant-product formula
//! over the two outcome pools, and after resolution the winners receive a
//! proportional share of the losing side's deposits minus protocol fees.
//!
//! The core is pure bookkeeping: every operation validates its inputs,
//! performs checked arithmetic, updates the in-memory records and reports the
//! value transfers the host must perform. Durable value transfer, identity
//! proofs, persistent keying and event emission are the host's concern; the
//! host hands the core plain values (the current time, the escrow balance,
//! the proven caller identity) and carries out the transfers each operation
//! returns.

pub mod amm;
pub mod error;
pub mod fees;
pub mod laws;
pub mod market;
pub mod state;
