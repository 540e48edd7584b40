//! Accounting core of a pooled-deposit reward vault.
//!
//! Users deposit a base asset into a shared pool and receive share tokens at a
//! fixed mint rate; redeeming shares releases the base asset at the inverse
//! rate.  This crate holds the ledger types, the error taxonomy, the domain
//! events, and the four engine operations as checked state transitions, each
//! with a full contract; the laws module proves pool conservation, share
//! consistency, and the deposit/withdraw round trip on top of them.  The
//! chain plumbing around the engine (account creation, token transfers,
//! event emission) lives outside the library.

pub mod deposit;
pub mod errors;
pub mod events;
pub mod initialize;
pub mod laws;
pub mod state;
pub mod utils;
pub mod withdraw;
