use deno_kv_rs::store::{MemoryStore, Store};

#[test]
fn new_store_is_empty() {
    let store = MemoryStore::new();
    assert_eq!(store.len().unwrap(), 0);
    assert_eq!(store.get("anything".to_string()).unwrap(), None);
}

#[test]
fn set_returns_previous_value() {
    let mut store = MemoryStore::new();
    assert_eq!(store.set("k".to_string(), "v1".to_string()).unwrap(), None);
    assert_eq!(
        store.set("k".to_string(), "v2".to_string()).unwrap(),
        Some("v1".to_string())
    );
    assert_eq!(store.get("k".to_string()).unwrap(), Some("v2".to_string()));
}

#[test]
fn len_counts_keys_not_writes() {
    let mut store = MemoryStore::new();
    store.set("a".to_string(), "1".to_string()).unwrap();
    store.set("b".to_string(), "2".to_string()).unwrap();
    store.set("a".to_string(), "3".to_string()).unwrap();
    assert_eq!(store.len().unwrap(), 2);
}

#[test]
fn get_of_absent_key_is_none() {
    let mut store = MemoryStore::new();
    store.set("present".to_string(), "x".to_string()).unwrap();
    assert_eq!(store.get("absent".to_string()).unwrap(), None);
    assert_eq!(store.get("".to_string()).unwrap(), None);
}

#[test]
fn empty_key_and_value_are_ordinary() {
    let mut store = MemoryStore::new();
    assert_eq!(store.set("".to_string(), "".to_string()).unwrap(), None);
    assert_eq!(store.get("".to_string()).unwrap(), Some("".to_string()));
    assert_eq!(store.len().unwrap(), 1);
}
