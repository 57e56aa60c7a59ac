//! Pricing and valuation core of a virtual-AMM perpetual-futures exchange.
//!
//! Given an immutable snapshot of a constant-product bonding curve and of an
//! open position, this crate computes the quote-asset value that closing the
//! position against the curve would realize right now, and the unrealized
//! profit or loss relative to the position's recorded cost basis. Every
//! computation is a single pass of checked fixed-point arithmetic: any
//! overflow, underflow, degenerate divisor or inconsistent snapshot surfaces
//! as a typed error, never as a wrapped or partial result.

pub mod amm;
pub mod direction;
pub mod error;
pub mod position;
pub mod quote_asset;
pub mod snapshot;
