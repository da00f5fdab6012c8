//! Validation and state-transition engine for a two-party rent agreement
//! kept as a fixed-layout record on a ledger.

pub mod codec;
pub mod error;
pub mod instruction;
pub mod laws;
pub mod processor;
pub mod state;
