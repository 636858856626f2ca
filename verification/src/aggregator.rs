//! Aggregator logic: one consumer per event channel. Each step dequeues the
//! oldest event, mutates its aggregate slot, and says what must be broadcast
//! to every connected client. The surrounding runtime runs one long-lived
//! task per channel that applies steps in a loop and hands each resulting
//! broadcast to the transport; a delivery failure there is non-fatal and
//! never reaches this logic.

use vstd::prelude::*;
use crate::state::AppState;
use crate::state2::AppState2;
use crate::wire::{spec_i32_decimal, spec_u64_decimal, spec_value_object};
use crate::wire::{update_2_payload, update_payload};

verus! {

/// One message to deliver, best effort, to every connected client.
pub struct Broadcast {
    /// The event name the message goes out under.
    pub event: String,
    /// The JSON text of the message payload.
    pub payload: String,
}

/// The payload texts of the `update` broadcasts that draining `delivered`
/// ticks sends when the counter stood at `prior`: one per tick, carrying
/// the strictly increasing counter values that end at `prior + delivered`.
pub open spec fn spec_tick_broadcasts(prior: nat, delivered: nat) -> Seq<Seq<char>> {
    Seq::new(delivered, |i: int| spec_value_object(spec_u64_decimal((prior + i + 1) as nat)))
}

/// The payload texts of the `update_2` broadcasts that draining this queue
/// sends: one per queued quantity, in queue order, each carrying exactly
/// the queued value.
pub open spec fn spec_quantity_broadcasts(queued: Seq<i32>) -> Seq<Seq<char>> {
    Seq::new(queued.len(), |i: int| spec_value_object(spec_i32_decimal(queued[i] as int)))
}

/// Tick accumulation law: each tick delivered to the channel contributes
/// exactly one more `update` broadcast, carrying the next counter value, so
/// after draining, the counter has grown by exactly the number of delivered
/// ticks, whatever interleaving of producers enqueued them.
pub proof fn lemma_tick_accumulation(prior: nat, delivered: nat)
    ensures
        spec_tick_broadcasts(prior, delivered).len() == delivered,
        spec_tick_broadcasts(prior, delivered + 1) == spec_tick_broadcasts(prior, delivered).push(
            spec_value_object(spec_u64_decimal((prior + delivered + 1) as nat)),
        ),
{
    assert(spec_tick_broadcasts(prior, delivered + 1) =~= spec_tick_broadcasts(
        prior,
        delivered,
    ).push(spec_value_object(spec_u64_decimal((prior + delivered + 1) as nat))));
}

/// FIFO preservation law: enqueueing one more quantity appends exactly its
/// own broadcast after those of the quantities already queued, so the
/// `update_2` broadcasts go out in the order the events were enqueued, each
/// carrying the value it was enqueued with.
pub proof fn lemma_fifo_preservation(queued: Seq<i32>, enqueued: i32)
    ensures
        spec_quantity_broadcasts(queued.push(enqueued)) == spec_quantity_broadcasts(queued).push(
            spec_value_object(spec_i32_decimal(enqueued as int)),
        ),
{
    assert(spec_quantity_broadcasts(queued.push(enqueued)) =~= spec_quantity_broadcasts(
        queued,
    ).push(spec_value_object(spec_i32_decimal(enqueued as int))));
}

/// One step of the tick aggregator: dequeue the oldest tick, if any,
/// increment the tick counter under its lock, and report the `update`
/// broadcast that carries the new counter value.
///
/// On an empty channel nothing changes and nothing is broadcast.
pub fn tick_step(state: &mut AppState) -> (out: Option<Broadcast>)
    requires
        old(state).wf(),
        old(state).channel@.len() > 0 ==> old(state).counter < u64::MAX,
    ensures
        final(state).wf(),
        old(state).channel@.len() == 0 ==> out is None
            && final(state).channel@ == old(state).channel@
            && final(state).counter == old(state).counter,
        old(state).channel@.len() > 0 ==> final(state).counter == old(state).counter + 1
            && final(state).channel@ == old(state).channel@.drop_first()
            && (out matches Some(b) && b.event@ == "update"@
                && b.payload@ == spec_value_object(
                    spec_u64_decimal(final(state).counter as nat),
                )),
{
    match state.channel.try_recv() {
        None => None,
        Some(_) => {
            state.counter = state.counter + 1;
            Some(
                Broadcast {
                    event: "update".to_owned(),
                    payload: update_payload(state.counter),
                },
            )
        },
    }
}

/// One step of the quantity aggregator: dequeue the oldest quantity, if
/// any, and report the `update_2` broadcast that relays exactly that value.
/// The counter slot of the quantity state is dead state and stays untouched.
///
/// On an empty channel nothing changes and nothing is broadcast.
pub fn quantity_step(state2: &mut AppState2) -> (out: Option<Broadcast>)
    requires
        old(state2).wf(),
    ensures
        final(state2).wf(),
        final(state2).counter == old(state2).counter,
        old(state2).channel@.len() == 0 ==> out is None
            && final(state2).channel@ == old(state2).channel@,
        old(state2).channel@.len() > 0 ==> final(state2).channel@ == old(
            state2,
        ).channel@.drop_first()
            && (out matches Some(b) && b.event@ == "update_2"@
                && b.payload@ == spec_value_object(
                    spec_i32_decimal(old(state2).channel@[0] as int),
                )),
{
    match state2.channel.try_recv() {
        None => None,
        Some(quantity) => Some(
            Broadcast {
                event: "update_2".to_owned(),
                payload: update_2_payload(quantity),
            },
        ),
    }
}

/// Drains every queued tick. The counter afterwards equals its prior value
/// plus the number of ticks drained, however the producers interleaved
/// while enqueueing them, and the `update` broadcasts carry the strictly
/// increasing counter values that end at that sum.
pub fn drain_ticks(state: &mut AppState) -> (out: Vec<Broadcast>)
    requires
        old(state).wf(),
        old(state).counter + old(state).channel@.len() <= u64::MAX,
    ensures
        final(state).wf(),
        final(state).channel@.len() == 0,
        final(state).counter == old(state).counter + old(state).channel@.len(),
        out@.len() == old(state).channel@.len(),
        forall|i: int|
            0 <= i < out@.len() ==> (#[trigger] out@[i]).event@ == "update"@
                && out@[i].payload@ == spec_tick_broadcasts(
                old(state).counter as nat,
                old(state).channel@.len(),
            )[i],
{
    let ghost counter0 = state.counter;
    let ghost pending0 = state.channel@.len();
    let mut out: Vec<Broadcast> = Vec::new();
    loop
        invariant
            state.wf(),
            state.counter == counter0 + out@.len(),
            out@.len() + state.channel@.len() == pending0,
            counter0 + pending0 <= u64::MAX,
            forall|i: int|
                0 <= i < out@.len() ==> (#[trigger] out@[i]).event@ == "update"@
                    && out@[i].payload@ == spec_value_object(
                    spec_u64_decimal((counter0 + i + 1) as nat),
                ),
        ensures
            state.wf(),
            state.channel@.len() == 0,
            state.counter == counter0 + out@.len(),
            out@.len() == pending0,
            forall|i: int|
                0 <= i < out@.len() ==> (#[trigger] out@[i]).event@ == "update"@
                    && out@[i].payload@ == spec_value_object(
                    spec_u64_decimal((counter0 + i + 1) as nat),
                ),
        decreases state.channel@.len(),
    {
        if state.channel.is_empty() {
            break;
        }
        let b = tick_step(state).unwrap();
        out.push(b);
    }
    out
}

/// Drains every queued quantity. The `update_2` broadcasts come out one per
/// queued event, in arrival order, each carrying exactly the value that was
/// enqueued: the channel's FIFO order is preserved end to end.
pub fn drain_quantities(state2: &mut AppState2) -> (out: Vec<Broadcast>)
    requires
        old(state2).wf(),
    ensures
        final(state2).wf(),
        final(state2).channel@.len() == 0,
        final(state2).counter == old(state2).counter,
        out@.len() == old(state2).channel@.len(),
        forall|i: int|
            0 <= i < out@.len() ==> (#[trigger] out@[i]).event@ == "update_2"@
                && out@[i].payload@ == spec_quantity_broadcasts(old(state2).channel@)[i],
{
    let ghost queued0 = state2.channel@;
    let mut out: Vec<Broadcast> = Vec::new();
    loop
        invariant
            state2.wf(),
            state2.counter == old(state2).counter,
            out@.len() + state2.channel@.len() == queued0.len(),
            state2.channel@ == queued0.skip(out@.len() as int),
            forall|i: int|
                0 <= i < out@.len() ==> (#[trigger] out@[i]).event@ == "update_2"@
                    && out@[i].payload@ == spec_value_object(
                    spec_i32_decimal(queued0[i] as int),
                ),
        ensures
            state2.wf(),
            state2.channel@.len() == 0,
            state2.counter == old(state2).counter,
            out@.len() == queued0.len(),
            forall|i: int|
                0 <= i < out@.len() ==> (#[trigger] out@[i]).event@ == "update_2"@
                    && out@[i].payload@ == spec_value_object(
                    spec_i32_decimal(queued0[i] as int),
                ),
        decreases state2.channel@.len(),
    {
        if state2.channel.is_empty() {
            break;
        }
        let ghost remaining = state2.channel@;
        let b = quantity_step(state2).unwrap();
        proof {
            assert(remaining[0] == queued0[out@.len() as int]);
            assert(remaining.drop_first() =~= queued0.skip(out@.len() as int + 1));
        }
        out.push(b);
    }
    out
}

} // verus!
