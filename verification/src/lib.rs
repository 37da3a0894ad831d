//! A `dd`-style block copy pipeline.
//!
//! Data moves from a byte source to a byte sink in fixed-size blocks through
//! a bounded first-in-first-out channel.  A reader stage produces blocks and
//! finishes with an empty sentinel block; a writer stage drains the channel
//! and appends each payload to the output in arrival order.  A shared ledger
//! records each stage's lifecycle and aggregate input/output statistics.

pub mod block;
pub mod channel;
pub mod clock;
pub mod config;
pub mod errors;
pub mod pipeline;
pub mod registry;
pub mod sink;
pub mod source;
pub mod stats;
pub mod task;
pub mod taskstate;
