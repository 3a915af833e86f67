//! Core state-transition logic of a proposal-and-voting ledger.
//!
//! A proposal carries a fixed slate of candidates and a time window; each
//! voter may approve a subset of the slate, and every approval bumps that
//! candidate's running tally. The two entry points, [`create_proposal`] and
//! [`cast_vote`], are pure transition functions: the clock value and the
//! caller's identity are passed in explicitly, and durable storage is left
//! to the host.

pub mod errors;
pub mod instructions;
pub mod laws;
pub mod states;

pub use instructions::cast_vote::cast_vote;
pub use instructions::create_proposal::create_proposal;
