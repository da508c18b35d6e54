//! A state-transition gate for a ledger-resident verification module.
//!
//! The library validates a verification request against a fixed-layout
//! verifier record and an ordered list of participant records, builds the
//! deterministic verification message from the request's track metadata,
//! and forwards exactly one call to an external verification service,
//! propagating its outcome unchanged. A failure at any step aborts the
//! whole transition before the external call is made.

pub mod error;
pub mod instruction;
pub mod processor;
pub mod service;
pub mod state;
