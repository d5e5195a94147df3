//! Mirrors the message history of one remote channel into a local archive,
//! keeps the mirror current from the update feed, and answers inline queries
//! from it.
//!
//! The logic here is verified. The calls into the storage engine, gathered in
//! one module, and the joining of paths are taken as they are. What needs the
//! network, a clock or the process environment is done by the program around
//! this library, which hands in plain values and carries out the actions
//! that come back.

pub mod backfill;
pub mod config;
mod engine;
pub mod failure;
pub mod gaps;
pub mod live;
pub mod query;
pub mod record;
pub mod retry;
pub mod stats;
pub mod store;

use vstd::prelude::*;

verus! {

/// Identifier of the synthetic statistics entry in an inline answer.
pub const USER_STATS_ID: &'static str = "stats";

/// How many rows an inline answer asks the archive for.
pub const INLINE_LIMIT: u8 = 10;

} // verus!
