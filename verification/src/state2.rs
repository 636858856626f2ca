//! Shared state for the quantity event kind: the bounded quantity channel
//! and a counter slot. The counter is deliberately dead state: no aggregator
//! mutates it today. It is kept as a placeholder for future aggregation
//! logic over the relayed quantities, mirroring how the relay scales by
//! adding one (channel, aggregator, slot) triple per event kind.

use vstd::prelude::*;
use crate::channel::BoundedQueue;
use crate::state::CHANNEL_CAPACITY;

verus! {

/// A quantity event carries one signed integer to relay.
pub type ClickQuantity = i32;

/// Shared aggregate state for the quantity event kind.
pub struct AppState2 {
    /// Bounded FIFO channel from the connection handlers to the aggregator.
    pub channel: BoundedQueue<ClickQuantity>,
    /// Unused aggregate slot, kept as a placeholder for future aggregation
    /// over the quantities; nothing mutates it.
    pub counter: u64,
}

impl AppState2 {
    /// Well-formedness: the channel is a well-formed queue with the
    /// configured capacity.
    pub open spec fn wf(&self) -> bool {
        &&& self.channel.wf()
        &&& self.channel.spec_capacity() == CHANNEL_CAPACITY
    }

    /// Creates the state a process starts with: an empty channel and a
    /// zero counter.
    pub fn new() -> (s: Self)
        ensures
            s.wf(),
            s.channel@ == Seq::<ClickQuantity>::empty(),
            s.counter == 0,
    {
        AppState2 { channel: BoundedQueue::new(CHANNEL_CAPACITY), counter: 0 }
    }
}

} // verus!
