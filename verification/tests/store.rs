use equinix_otel_tools::codec::{parse, TraceContext};
use equinix_otel_tools::store::ContextStore;
use equinix_otel_tools::{read_traceparent, update_traceparent, TRACEPARENT};

const FIRST: &str = "00-4bf92f3577b34da6a3ce929d0e0e4736-00f067aa0ba902b7-01";
const SECOND: &str = "00-0af7651916cd43dd8448eb211c80319c-b7ad6b7169203331-01";

fn first() -> TraceContext {
    TraceContext {
        version: 0,
        trace_id: 0x4bf92f3577b34da6a3ce929d0e0e4736,
        parent_id: 0x00f067aa0ba902b7,
        flags: 1,
    }
}

#[test]
fn the_slot_is_named_traceparent() {
    assert_eq!(TRACEPARENT, "TRACEPARENT");
}

#[test]
fn read_gives_nothing_for_an_unset_slot() {
    let store = ContextStore::new(None);
    assert_eq!(store.read(), None);
    assert_eq!(read_traceparent(&store), None);
}

#[test]
fn read_gives_nothing_for_an_invalid_slot() {
    for text in ["", "garbage", "00-abc-def-01", "01-4bf92f3577b34da6a3ce929d0e0e4736-00f067aa0ba902b7-01"] {
        let store = ContextStore::new(Some(text.to_string()));
        assert_eq!(store.read(), None, "{text}");
        assert_eq!(read_traceparent(&store), None, "{text}");
    }
}

#[test]
fn read_gives_the_context_of_a_valid_slot() {
    let store = ContextStore::new(Some(FIRST.to_string()));
    assert_eq!(store.read(), Some(first()));
    assert_eq!(read_traceparent(&store), Some(first()));
}

#[test]
fn update_writes_into_an_unset_slot() {
    let mut store = ContextStore::new(None);
    assert!(store.update(FIRST));
    assert_eq!(store.value.as_deref(), Some(FIRST));
    assert_eq!(store.read(), Some(parse(FIRST).unwrap()));
}

#[test]
fn update_with_the_same_text_changes_nothing() {
    let mut store = ContextStore::new(None);
    assert!(store.update(FIRST));
    assert!(!store.update(FIRST));
    assert_eq!(store.value.as_deref(), Some(FIRST));
    assert!(!store.update(FIRST));
    assert_eq!(store.read(), Some(first()));
}

#[test]
fn update_with_an_invalid_text_changes_nothing() {
    let mut store = ContextStore::new(None);
    assert!(!store.update("not a traceparent"));
    assert_eq!(store.value, None);
    assert!(store.update(FIRST));
    for text in ["", "not a traceparent", "00-00000000000000000000000000000000-00f067aa0ba902b7-01"] {
        assert!(!store.update(text), "{text}");
        assert_eq!(store.value.as_deref(), Some(FIRST));
    }
}

#[test]
fn update_replaces_another_context() {
    let mut store = ContextStore::new(Some(FIRST.to_string()));
    assert!(store.update(SECOND));
    assert_eq!(store.value.as_deref(), Some(SECOND));
    assert_eq!(store.read(), Some(parse(SECOND).unwrap()));
    assert!(store.update(FIRST));
    assert_eq!(store.value.as_deref(), Some(FIRST));
}

#[test]
fn update_replaces_an_invalid_slot() {
    let mut store = ContextStore::new(Some("garbage".to_string()));
    assert!(store.update(FIRST));
    assert_eq!(store.value.as_deref(), Some(FIRST));
}

#[test]
fn update_takes_a_change_of_the_flags_alone() {
    let unsampled = "00-4bf92f3577b34da6a3ce929d0e0e4736-00f067aa0ba902b7-00";
    let mut store = ContextStore::new(Some(FIRST.to_string()));
    assert!(store.update(unsampled));
    assert_eq!(store.value.as_deref(), Some(unsampled));
    assert_eq!(store.read().map(|ctx| ctx.flags), Some(0));
}

#[test]
fn update_compares_contexts_not_texts() {
    let upper = "00-4BF92F3577B34DA6A3CE929D0E0E4736-00F067AA0BA902B7-01";
    let mut store = ContextStore::new(Some(FIRST.to_string()));
    assert!(!store.update(upper));
    assert_eq!(store.value.as_deref(), Some(FIRST));
}

#[test]
fn decide_leaves_the_slot_alone() {
    let store = ContextStore::new(Some(FIRST.to_string()));
    assert_eq!(store.decide(SECOND), Some(parse(SECOND).unwrap()));
    assert_eq!(store.decide(FIRST), None);
    assert_eq!(store.decide("garbage"), None);
    assert_eq!(store.value.as_deref(), Some(FIRST));
    let store = ContextStore::new(None);
    assert_eq!(store.decide(FIRST), Some(first()));
    assert_eq!(store.value, None);
}

#[test]
fn update_traceparent_returns_the_context_it_wrote() {
    let mut store = ContextStore::new(None);
    assert_eq!(update_traceparent(&mut store, FIRST.to_string()), Some(first()));
    assert_eq!(store.value.as_deref(), Some(FIRST));
    assert_eq!(read_traceparent(&store), Some(first()));
    assert_eq!(update_traceparent(&mut store, FIRST.to_string()), None);
    assert_eq!(store.value.as_deref(), Some(FIRST));
    assert_eq!(update_traceparent(&mut store, "garbage".to_string()), None);
    assert_eq!(store.value.as_deref(), Some(FIRST));
    assert_eq!(
        update_traceparent(&mut store, SECOND.to_string()),
        Some(parse(SECOND).unwrap())
    );
    assert_eq!(store.value.as_deref(), Some(SECOND));
}
