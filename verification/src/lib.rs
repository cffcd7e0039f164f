//! Quadratic voting for token-governed organisations.
//!
//! A DAO owns proposals; token holders vote on them, and a vote weighs the
//! integer square root of the voter's token balance. Every record lives at an
//! address derived from stable seeds, so that creating a record twice is
//! impossible by construction.

pub mod address;
pub mod credits;
pub mod derivation;
pub mod errors;
pub mod instructions;
pub mod laws;
pub mod ledger;
pub mod program;
pub mod state;

pub use program::{cast_vote, init_dao, init_proposal};
