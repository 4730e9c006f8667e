//! A value-distribution module for a deterministic ledger runtime.
//!
//! On a deposit of the native currency the module deducts a fixed protocol
//! fee, splits the remainder evenly between a liquidity-incentive recipient
//! and a permanent destruction address, and requests that a separate token
//! module credit the sender — either one-for-one with the forwarded amount
//! (fixed-rate mode) or converted through an admin-maintained price (priced
//! mode). A privileged account may update the conversion price.
//!
//! The crate holds the message router, the deposit distributor and the
//! price store, all stated over plain values. The host runtime's wiring
//! (entry points, wire-message serialization, persistent storage) lives
//! outside this crate and hands plain values in and out.

pub mod amounts;
pub mod handler;
pub mod msgs;
pub mod price_store;
