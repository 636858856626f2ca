//! Producer-side logic of the relay: what a connection handler does with
//! each inbound client event, and the replies of the record-persistence
//! handler. The transport hands every payload over as a [`Payload`], the
//! crate's own view of a decoded JSON value that keeps exactly what this
//! logic reads: an object's fields, integer fields and string fields.

use vstd::prelude::*;
use crate::state::AppState;
use crate::state2::AppState2;

verus! {

/// One field value of an inbound JSON object, as far as the relay reads it.
pub enum FieldValue {
    /// A number that is an integer representable in 64 bits.
    Int(i64),
    /// A string.
    Text(String),
    /// Any other value: null, a boolean, a non-integer or out-of-range
    /// number, an array or a nested object.
    Other,
}

/// An inbound event payload, as far as the relay reads it.
pub enum Payload {
    /// A JSON object: its field names and values, in order. Field names
    /// are unique, as they are in a JSON object.
    Object(Vec<(String, FieldValue)>),
    /// Any payload that is not a JSON object.
    Other,
}

/// The value of the first field with the given name, if any.
pub open spec fn spec_find(fields: Seq<(String, FieldValue)>, name: Seq<char>) -> Option<
    FieldValue,
>
    decreases fields.len(),
{
    if fields.len() == 0 {
        None
    } else if fields[0].0@ == name {
        Some(fields[0].1)
    } else {
        spec_find(fields.drop_first(), name)
    }
}

proof fn lemma_spec_find_hit(fields: Seq<(String, FieldValue)>, name: Seq<char>, i: int)
    requires
        0 <= i < fields.len(),
        fields[i].0@ == name,
        forall|j: int| 0 <= j < i ==> (#[trigger] fields[j]).0@ != name,
    ensures
        spec_find(fields, name) == Some(fields[i].1),
    decreases i,
{
    if i > 0 {
        lemma_spec_find_hit(fields.drop_first(), name, i - 1);
    }
}

proof fn lemma_spec_find_miss(fields: Seq<(String, FieldValue)>, name: Seq<char>)
    requires
        forall|j: int| 0 <= j < fields.len() ==> (#[trigger] fields[j]).0@ != name,
    ensures
        spec_find(fields, name) is None,
    decreases fields.len(),
{
    if fields.len() > 0 {
        lemma_spec_find_miss(fields.drop_first(), name);
    }
}

/// Index of the first field with the given name, if any.
pub(crate) fn find_field(fields: &Vec<(String, FieldValue)>, name: &String) -> (found: Option<usize>)
    ensures
        match found {
            Some(i) => i < fields@.len() && spec_find(fields@, name@) == Some(fields@[i as int].1),
            None => spec_find(fields@, name@) is None,
        },
{
    let mut j: usize = 0;
    while j < fields.len()
        invariant
            j <= fields@.len(),
            forall|k: int| 0 <= k < j ==> (#[trigger] fields@[k]).0@ != name@,
        decreases fields@.len() - j,
    {
        if fields[j].0 == *name {
            proof {
                lemma_spec_find_hit(fields@, name@, j as int);
            }
            return Some(j);
        }
        j = j + 1;
    }
    proof {
        lemma_spec_find_miss(fields@, name@);
    }
    None
}

/// The quantity a payload carries: the integer field `numero` of a JSON
/// object, when it is present and fits a 32-bit signed integer. Anything
/// else is malformed.
pub open spec fn spec_decode_quantity(payload: Payload) -> Option<i32> {
    match payload {
        Payload::Object(fields) => match spec_find(fields@, "numero"@) {
            Some(FieldValue::Int(v)) => if i32::MIN <= v <= i32::MAX {
                Some(v as i32)
            } else {
                None
            },
            _ => None,
        },
        Payload::Other => None,
    }
}

/// Decodes a quantity event payload: `{"numero": v}` yields `v`.
pub fn decode_quantity(payload: &Payload) -> (quantity: Option<i32>)
    ensures
        quantity == spec_decode_quantity(*payload),
{
    match payload {
        Payload::Object(fields) => {
            let key: String = "numero".to_owned();
            match find_field(fields, &key) {
                Some(i) => match &fields[i].1 {
                    FieldValue::Int(v) => {
                        if i32::MIN as i64 <= *v && *v <= i32::MAX as i64 {
                            Some(*v as i32)
                        } else {
                            None
                        }
                    },
                    _ => None,
                },
                None => None,
            }
        },
        Payload::Other => None,
    }
}

/// What a connection handler did with one tick (`Click`) event.
///
/// The payload of a tick is ignored: only the occurrence counts. The
/// handler enqueues one tick onto the tick channel, best effort: under
/// backpressure the tick is dropped and the connection is left undisturbed.
/// The tick counter itself is only ever advanced by the aggregator, never
/// here.
pub fn handle_click(state: &mut AppState) -> (enqueued: bool)
    requires
        old(state).wf(),
    ensures
        final(state).wf(),
        final(state).counter == old(state).counter,
        old(state).channel@.len() < old(state).channel.spec_capacity() ==> enqueued
            && final(state).channel@ == old(state).channel@.push(()),
        old(state).channel@.len() >= old(state).channel.spec_capacity() ==> !enqueued
            && final(state).channel@ == old(state).channel@,
{
    state.channel.try_send(())
}

/// What a connection handler did with one quantity (`dynamic`) event.
pub enum QuantityOutcome {
    /// The payload decoded to this quantity and it was enqueued.
    Enqueued(i32),
    /// The payload decoded to this quantity but the channel was full:
    /// the event was dropped.
    ChannelFull(i32),
    /// The payload was malformed: no `numero` integer field. Nothing was
    /// enqueued and nothing will be broadcast for it.
    Malformed,
}

/// Handles one quantity (`dynamic`) event: decodes the payload and, when it
/// is well formed, enqueues the decoded integer onto the quantity channel,
/// best effort. A malformed payload changes nothing, and an enqueue refused
/// under backpressure drops the event; neither disturbs the connection.
pub fn handle_dynamic(state2: &mut AppState2, payload: &Payload) -> (outcome: QuantityOutcome)
    requires
        old(state2).wf(),
    ensures
        final(state2).wf(),
        final(state2).counter == old(state2).counter,
        spec_decode_quantity(*payload) is None ==> outcome == QuantityOutcome::Malformed
            && final(state2).channel@ == old(state2).channel@,
        spec_decode_quantity(*payload) matches Some(v) ==> (
        if old(state2).channel@.len() < old(state2).channel.spec_capacity() {
            outcome == QuantityOutcome::Enqueued(v) && final(state2).channel@ == old(
                state2,
            ).channel@.push(v)
        } else {
            outcome == QuantityOutcome::ChannelFull(v) && final(state2).channel@ == old(
                state2,
            ).channel@
        }),
{
    match decode_quantity(payload) {
        Some(quantity) => {
            if state2.channel.try_send(quantity) {
                QuantityOutcome::Enqueued(quantity)
            } else {
                QuantityOutcome::ChannelFull(quantity)
            }
        },
        None => QuantityOutcome::Malformed,
    }
}

/// The one-time acknowledgment sent to a client right after it connects,
/// under the event name `response`.
pub fn welcome_message() -> (message: &'static str)
    ensures
        message@ == "Conexão estabelecida com sucesso!"@,
{
    "Conexão estabelecida com sucesso!"
}

/// The best-effort notification broadcast to the other clients when a new
/// client connects, under the event name `broadcast_event`.
pub fn connected_notice() -> (notice: &'static str)
    ensures
        notice@ == "Um novo usuário conectou!"@,
{
    "Um novo usuário conectou!"
}

/// The static greeting page served on `GET /`.
pub fn greeting_page() -> (page: &'static str)
    ensures
        page@
            == "<h1>Olá, mundo! Esta é a minha primeira API com Axum.</h1>\n <h1>Bem-vindo!</h1>"@,
{
    "<h1>Olá, mundo! Esta é a minha primeira API com Axum.</h1>\n <h1>Bem-vindo!</h1>"
}

} // verus!
