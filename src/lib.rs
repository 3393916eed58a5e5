//! The verified core of an event-sourced auction bidding engine.
//!
//! - `model`: items, bids, commands and the auction lifecycle status.
//! - `events`: domain events and their log envelope.
//! - `commands`: validation of bids and buy-nows against a snapshot, and the
//!   optimistic-concurrency retry loop as a state machine.
//! - `event_log`: the append-only log with its (aggregate, version) gate.
//! - `projection`: the conditional updates of the query side, and an
//!   in-memory projection store with a processed-event set.
//! - `history`: laws over the accepted events of one item.
//! - `scheduler`: the time-driven lifecycle transitions.
use vstd::prelude::*;

pub mod commands;
pub mod event_log;
pub mod events;
pub mod history;
pub mod model;
pub mod projection;
pub mod scheduler;

verus! {

} // verus!
