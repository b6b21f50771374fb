use tracing_atrace::{SpanStore, TraceError};

#[test]
fn a_new_store_is_empty() {
    let store = SpanStore::new();
    assert_eq!(store.len(), 0);
    assert!(!store.contains(1));
    assert_eq!(store.get(1), Err(TraceError::UnknownSpan));
}

#[test]
fn create_then_get_returns_the_label() {
    let mut store = SpanStore::new();
    assert_eq!(store.create(1, "span_a,x=1".to_string()), Ok(()));
    assert_eq!(store.get(1).map(|s| s.as_str()), Ok("span_a,x=1"));
    assert!(store.contains(1));
    assert_eq!(store.len(), 1);
}

#[test]
fn create_refuses_a_taken_identifier() {
    let mut store = SpanStore::new();
    assert_eq!(store.create(1, "first".to_string()), Ok(()));
    assert_eq!(store.create(1, "second".to_string()), Err(TraceError::DuplicateSpan));
    assert_eq!(store.get(1).map(|s| s.as_str()), Ok("first"));
    assert_eq!(store.len(), 1);
}

#[test]
fn update_with_the_same_text_writes_nothing() {
    let mut store = SpanStore::new();
    store.create(1, "req,id=42".to_string()).unwrap();
    assert_eq!(store.update(1, "req,id=42".to_string()), Ok(false));
    assert_eq!(store.get(1).map(|s| s.as_str()), Ok("req,id=42"));
}

#[test]
fn update_with_another_text_replaces_the_label() {
    let mut store = SpanStore::new();
    store.create(1, "req,id=42".to_string()).unwrap();
    assert_eq!(store.update(1, "req,id=43".to_string()), Ok(true));
    assert_eq!(store.get(1).map(|s| s.as_str()), Ok("req,id=43"));
    assert_eq!(store.len(), 1);
}

#[test]
fn update_refuses_an_unknown_span() {
    let mut store = SpanStore::new();
    assert_eq!(store.update(1, "x".to_string()), Err(TraceError::UnknownSpan));
    assert!(!store.contains(1));
}

#[test]
fn remove_deletes_the_entry() {
    let mut store = SpanStore::new();
    store.create(1, "a".to_string()).unwrap();
    assert_eq!(store.remove(1), Ok(()));
    assert!(!store.contains(1));
    assert_eq!(store.get(1), Err(TraceError::UnknownSpan));
    assert_eq!(store.remove(1), Err(TraceError::UnknownSpan));
    assert_eq!(store.len(), 0);
}

#[test]
fn remove_refuses_an_unknown_span() {
    let mut store = SpanStore::new();
    store.create(1, "a".to_string()).unwrap();
    assert_eq!(store.remove(2), Err(TraceError::UnknownSpan));
    assert_eq!(store.len(), 1);
}

#[test]
fn an_identifier_can_be_used_again_after_removal() {
    let mut store = SpanStore::new();
    store.create(1, "a".to_string()).unwrap();
    store.remove(1).unwrap();
    assert_eq!(store.create(1, "b".to_string()), Ok(()));
    assert_eq!(store.get(1).map(|s| s.as_str()), Ok("b"));
}

#[test]
fn spans_do_not_touch_each_other() {
    let mut store = SpanStore::new();
    store.create(1, "one".to_string()).unwrap();
    store.create(2, "two".to_string()).unwrap();
    store.update(1, "uno".to_string()).unwrap();
    assert_eq!(store.get(2).map(|s| s.as_str()), Ok("two"));
    store.remove(1).unwrap();
    assert_eq!(store.get(2).map(|s| s.as_str()), Ok("two"));
    assert_eq!(store.len(), 1);
    assert_eq!(store.create(u64::MAX, "max".to_string()), Ok(()));
    assert_eq!(store.create(0, "zero".to_string()), Ok(()));
    assert_eq!(store.get(u64::MAX).map(|s| s.as_str()), Ok("max"));
    assert_eq!(store.get(0).map(|s| s.as_str()), Ok("zero"));
}
