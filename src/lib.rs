//! An escrow between two parties on a ledger: a maker deposits one asset into
//! a vault held by a derived record address, and a taker releases it by paying
//! the requested amount of a second asset, or the maker cancels and takes the
//! deposit back. Each handler checks every supplied account and returns the
//! effects for the host to perform atomically.

pub mod action;
pub mod codec;
pub mod custody;
pub mod error;
pub mod instruction;
pub mod instructions;
pub mod ledger;
pub mod lifecycle;
pub mod processor;
pub mod state;
