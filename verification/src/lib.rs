//! Validation and deduplication of a beatmap catalog against a songs folder,
//! with the progress notifications that accompany a run.

pub mod aggregator;
pub mod decimal;
pub mod engine;
pub mod notification;
pub mod pipeline;
pub mod session;
pub mod song;

use vstd::prelude::*;

verus! {

/// The number of songs in a batch of the worker, and between two progress
/// notifications.
pub const SONGS_PROCESS_WORKER_BATCH_SIZE: usize = 500;

/// The capacity of the channel between the worker and the session: two
/// batches, so that one can be in flight while the next is put together.
pub const CHANNEL_CAPACITY: usize = SONGS_PROCESS_WORKER_BATCH_SIZE * 2;

} // verus!
