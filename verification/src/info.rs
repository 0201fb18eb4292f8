//! Read-only access to what synchronization knows.
use vstd::prelude::*;
use crate::chain::ChainInfo;
use crate::state::QueueInfo;

verus! {

/// How many headers may wait in an import queue that counts as empty.
pub const EMPTY_QUEUE: usize = 3;

/// Trait for erasing the type of a light sync object and exposing read-only methods.
pub trait SyncInfo {
    /// Get the highest block advertised on the network.
    fn highest_block(&self) -> Option<u64>;

    /// Get the block number at the time of sync start.
    fn start_block(&self) -> u64;

    /// Whether major sync is underway, given the state of the import queue.
    fn is_major_importing(&self, queue_info: &QueueInfo) -> bool;
}

/// The number of the best block seen on the network.
pub open spec fn highest_seen(best_seen: Option<ChainInfo>) -> Option<u64> {
    match best_seen {
        Some(best) => Some(best.head_num),
        None => None,
    }
}

} // verus!
