//! A transaction ledger: per-client accounts updated by a sequential stream
//! of deposits, withdrawals and dispute-family instructions, with proved
//! balance invariants.

pub mod account;
pub mod engine;
pub mod error;
pub mod laws;
pub mod model;
pub mod money;
pub mod report;
pub mod transaction;
