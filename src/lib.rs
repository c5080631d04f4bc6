//! Decision logic of a rate-limited batch track downloader: the shared
//! failure backoff, the per-track pipeline, the sample buffer fed by a
//! stream of events, and the bounded-parallel batch scheduler.
//!
//! All times are milliseconds on a monotonic clock chosen by the caller.
use vstd::prelude::*;

pub mod config;
pub mod limiter;
pub mod batch;
pub mod buffer;
pub mod pipeline;

verus! {

} // verus!
