//! Pricing and accounting core of a two-asset constant-product automated
//! market maker: exact integer arithmetic for trades, deposit and withdrawal
//! conversions, and fractional fees, with the rounding direction of every
//! conversion chosen so that repeated operations can never drain the pool.
//!
//! The core is a pure calculator: every operation is a single computation
//! from a snapshot of the pool's reserves and share supply to new amounts.
//! Persisting the pool state and moving the actual tokens is the caller's
//! responsibility.

pub mod error;
pub mod math;
pub mod fees;
pub mod calculator;
pub mod constant_product;
pub mod base;
pub mod state;
pub mod instructions;

pub use error::SwapError;
