//! A deterministic state-transition module for a ledger-backed collectible
//! registry: entities carrying a fixed 16-byte genome are created, bred,
//! owned and traded, with ownership changes gated by a currency escrow.
//!
//! The module is a pure, sequential transition function: each request either
//! applies fully and appends its notification to the event log, or declines
//! with an error and leaves every table and balance untouched.

pub mod errors;
pub mod genome;
pub mod ledger;
pub mod pallet;
pub mod randomness;
