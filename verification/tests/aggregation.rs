use event_relay::aggregator::{drain_quantities, drain_ticks, quantity_step, tick_step};
use event_relay::routes::{handle_click, handle_dynamic, FieldValue, Payload, QuantityOutcome};
use event_relay::state::{AppState, CHANNEL_CAPACITY};
use event_relay::state2::AppState2;

fn quantity_payload(v: i64) -> Payload {
    Payload::Object(vec![("numero".to_string(), FieldValue::Int(v))])
}

#[test]
fn three_clicks_counted() {
    let mut state = AppState::new();
    assert!(handle_click(&mut state));
    assert!(handle_click(&mut state));
    assert!(handle_click(&mut state));
    let broadcasts = drain_ticks(&mut state);
    assert_eq!(broadcasts.len(), 3);
    for (i, b) in broadcasts.iter().enumerate() {
        assert_eq!(b.event, "update");
        assert_eq!(b.payload, format!("{{\"value\":{}}}", i + 1));
    }
    assert_eq!(state.counter, 3);
    assert!(state.channel.is_empty());
}

#[test]
fn counter_resumes_from_prior_value() {
    let mut state = AppState::new();
    assert!(handle_click(&mut state));
    assert_eq!(drain_ticks(&mut state).len(), 1);
    assert_eq!(state.counter, 1);
    assert!(handle_click(&mut state));
    assert!(handle_click(&mut state));
    let broadcasts = drain_ticks(&mut state);
    assert_eq!(broadcasts.len(), 2);
    assert_eq!(broadcasts[0].payload, "{\"value\":2}");
    assert_eq!(broadcasts[1].payload, "{\"value\":3}");
    assert_eq!(state.counter, 3);
}

#[test]
fn tick_step_on_empty_channel_changes_nothing() {
    let mut state = AppState::new();
    assert!(tick_step(&mut state).is_none());
    assert_eq!(state.counter, 0);
    assert!(state.channel.is_empty());
}

#[test]
fn dynamic_forty_two() {
    let mut state = AppState::new();
    let mut state2 = AppState2::new();
    let outcome = handle_dynamic(&mut state2, &quantity_payload(42));
    assert!(matches!(outcome, QuantityOutcome::Enqueued(42)));
    let broadcasts = drain_quantities(&mut state2);
    assert_eq!(broadcasts.len(), 1);
    assert_eq!(broadcasts[0].event, "update_2");
    assert_eq!(broadcasts[0].payload, "{\"value\":42}");
    // The tick counter is untouched, and so is the placeholder slot.
    assert_eq!(state.counter, 0);
    assert_eq!(state2.counter, 0);
}

#[test]
fn quantities_relayed_in_fifo_order() {
    let mut state2 = AppState2::new();
    for v in [7i64, -3, 0] {
        let outcome = handle_dynamic(&mut state2, &quantity_payload(v));
        assert!(matches!(outcome, QuantityOutcome::Enqueued(_)));
    }
    let broadcasts = drain_quantities(&mut state2);
    assert_eq!(broadcasts.len(), 3);
    assert_eq!(broadcasts[0].payload, "{\"value\":7}");
    assert_eq!(broadcasts[1].payload, "{\"value\":-3}");
    assert_eq!(broadcasts[2].payload, "{\"value\":0}");
}

#[test]
fn quantity_step_pops_one_event() {
    let mut state2 = AppState2::new();
    handle_dynamic(&mut state2, &quantity_payload(5));
    handle_dynamic(&mut state2, &quantity_payload(6));
    let first = quantity_step(&mut state2).expect("an event was queued");
    assert_eq!(first.payload, "{\"value\":5}");
    assert_eq!(state2.channel.len(), 1);
    let second = quantity_step(&mut state2).expect("an event was queued");
    assert_eq!(second.payload, "{\"value\":6}");
    assert!(quantity_step(&mut state2).is_none());
}

#[test]
fn fifo_order_holds_across_interleaved_enqueues() {
    let mut state2 = AppState2::new();
    handle_dynamic(&mut state2, &quantity_payload(1));
    handle_dynamic(&mut state2, &quantity_payload(2));
    let first = quantity_step(&mut state2).expect("an event was queued");
    assert_eq!(first.payload, "{\"value\":1}");
    handle_dynamic(&mut state2, &quantity_payload(3));
    let broadcasts = drain_quantities(&mut state2);
    assert_eq!(broadcasts.len(), 2);
    assert_eq!(broadcasts[0].payload, "{\"value\":2}");
    assert_eq!(broadcasts[1].payload, "{\"value\":3}");
}

#[test]
fn malformed_quantity_enqueues_nothing() {
    let mut state2 = AppState2::new();
    let missing = Payload::Object(vec![("outro".to_string(), FieldValue::Int(1))]);
    let wrong_type = Payload::Object(vec![("numero".to_string(), FieldValue::Text("x".to_string()))]);
    let not_an_object = Payload::Other;
    let out_of_range = quantity_payload(5_000_000_000);
    for payload in [missing, wrong_type, not_an_object, out_of_range] {
        let outcome = handle_dynamic(&mut state2, &payload);
        assert!(matches!(outcome, QuantityOutcome::Malformed));
        assert!(state2.channel.is_empty());
    }
    assert!(drain_quantities(&mut state2).is_empty());
}

#[test]
fn full_tick_channel_drops_clicks() {
    let mut state = AppState::new();
    for _ in 0..CHANNEL_CAPACITY {
        assert!(handle_click(&mut state));
    }
    assert!(!handle_click(&mut state));
    assert_eq!(state.channel.len(), CHANNEL_CAPACITY);
    let broadcasts = drain_ticks(&mut state);
    assert_eq!(broadcasts.len(), CHANNEL_CAPACITY);
    assert_eq!(state.counter, CHANNEL_CAPACITY as u64);
}

#[test]
fn full_quantity_channel_drops_events() {
    let mut state2 = AppState2::new();
    for v in 0..CHANNEL_CAPACITY as i64 {
        let outcome = handle_dynamic(&mut state2, &quantity_payload(v));
        assert!(matches!(outcome, QuantityOutcome::Enqueued(_)));
    }
    let outcome = handle_dynamic(&mut state2, &quantity_payload(999));
    assert!(matches!(outcome, QuantityOutcome::ChannelFull(999)));
    assert_eq!(state2.channel.len(), CHANNEL_CAPACITY);
}
