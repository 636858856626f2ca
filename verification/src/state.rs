//! Shared state for the tick event kind: the bounded tick channel and the
//! monotonic tick counter, the aggregate slot that the tick aggregator
//! mutates. The surrounding runtime shares one `AppState` across all
//! connection handlers (behind its own exclusive-access lock) and gives the
//! single aggregator task sole dequeue rights on the channel.

use vstd::prelude::*;
use crate::channel::BoundedQueue;

verus! {

/// A tick event carries no data: only the occurrence matters.
pub type ClickEvent = ();

/// Number of slots in each event channel.
pub const CHANNEL_CAPACITY: usize = 100;

/// Shared aggregate state for the tick event kind.
pub struct AppState {
    /// Bounded FIFO channel from the connection handlers to the aggregator.
    pub channel: BoundedQueue<ClickEvent>,
    /// Monotonic counter of ticks aggregated so far.
    pub counter: u64,
}

impl AppState {
    /// Well-formedness: the channel is a well-formed queue with the
    /// configured capacity.
    pub open spec fn wf(&self) -> bool {
        &&& self.channel.wf()
        &&& self.channel.spec_capacity() == CHANNEL_CAPACITY
    }

    /// Creates the state a process starts with: an empty channel and a
    /// zero counter.
    pub fn new() -> (s: Self)
        ensures
            s.wf(),
            s.channel@ == Seq::<ClickEvent>::empty(),
            s.counter == 0,
    {
        AppState { channel: BoundedQueue::new(CHANNEL_CAPACITY), counter: 0 }
    }
}

} // verus!
