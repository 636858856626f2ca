//! Bounded multi-producer/single-consumer event channel, modelled as a FIFO
//! queue with a fixed capacity. Producers enqueue at the back; the single
//! consumer (an aggregator task) dequeues from the front. An enqueue onto a
//! full queue is refused, which is the drop-on-backpressure policy of the
//! relay: the producer drops the event rather than block its connection.

use vstd::prelude::*;

verus! {

/// A bounded FIFO queue of events of one kind.
///
/// The view of a queue is the sequence of queued events, oldest first.
pub struct BoundedQueue<T> {
    items: Vec<T>,
    capacity: usize,
}

impl<T> View for BoundedQueue<T> {
    type V = Seq<T>;

    closed spec fn view(&self) -> Seq<T> {
        self.items@
    }
}

impl<T> BoundedQueue<T> {
    /// The number of slots the queue was created with.
    pub closed spec fn spec_capacity(&self) -> nat {
        self.capacity as nat
    }

    /// Well-formedness: the queue never holds more events than its capacity,
    /// and the capacity is at least one slot.
    pub open spec fn wf(&self) -> bool {
        &&& self@.len() <= self.spec_capacity()
        &&& 1 <= self.spec_capacity()
    }

    /// Creates an empty queue with the given number of slots.
    pub fn new(capacity: usize) -> (q: Self)
        requires
            1 <= capacity,
        ensures
            q.wf(),
            q@ == Seq::<T>::empty(),
            q.spec_capacity() == capacity,
    {
        BoundedQueue { items: Vec::new(), capacity }
    }

    /// The number of events currently queued.
    pub fn len(&self) -> (n: usize)
        ensures
            n == self@.len(),
    {
        self.items.len()
    }

    /// Whether the queue holds no events.
    pub fn is_empty(&self) -> (b: bool)
        ensures
            b == (self@.len() == 0),
    {
        self.items.len() == 0
    }

    /// Attempts to enqueue one event at the back of the queue.
    ///
    /// Succeeds exactly when the queue is not full; a refused enqueue leaves
    /// the queue unchanged, which is how a producer drops an event under
    /// backpressure.
    pub fn try_send(&mut self, event: T) -> (accepted: bool)
        requires
            old(self).wf(),
        ensures
            final(self).wf(),
            final(self).spec_capacity() == old(self).spec_capacity(),
            old(self)@.len() < old(self).spec_capacity() ==> accepted
                && final(self)@ == old(self)@.push(event),
            old(self)@.len() >= old(self).spec_capacity() ==> !accepted
                && final(self)@ == old(self)@,
    {
        if self.items.len() < self.capacity {
            self.items.push(event);
            true
        } else {
            false
        }
    }

    /// Dequeues the oldest event, if any.
    ///
    /// Returns the event at the front of the queue and removes it; on an
    /// empty queue returns nothing and changes nothing. Together with
    /// `try_send` this makes the queue strictly first-in first-out.
    pub fn try_recv(&mut self) -> (received: Option<T>)
        requires
            old(self).wf(),
        ensures
            final(self).wf(),
            final(self).spec_capacity() == old(self).spec_capacity(),
            old(self)@.len() == 0 ==> received is None && final(self)@ == old(self)@,
            old(self)@.len() > 0 ==> received == Some(old(self)@[0])
                && final(self)@ == old(self)@.drop_first(),
    {
        if self.items.len() == 0 {
            None
        } else {
            let event = self.items.remove(0);
            Some(event)
        }
    }
}

} // verus!
