use rust_kv::store::StoreInner;

fn label(key: &str) -> String {
    key.to_string()
}

fn made(capacity: usize) -> StoreInner<u64> {
    StoreInner::new(capacity).ok().unwrap()
}

#[test]
fn delete_on_an_absent_key_changes_nothing() {
    let mut store = made(2);
    store.delete(label("ghost"));
    assert_eq!(store.len(), 0);
    store.put(label("a"), 1, None, 0);
    store.put(label("b"), 2, None, 0);
    store.delete(label("ghost"));
    assert_eq!(store.len(), 2);
    store.put(label("c"), 3, None, 0);
    assert_eq!(store.get(label("a"), 0), None);
    assert_eq!(store.get(label("b"), 0), Some(2));
    assert_eq!(store.get(label("c"), 0), Some(3));
}

#[test]
fn a_deleted_key_is_absent() {
    let mut store = made(2);
    store.put(label("a"), 1, None, 0);
    store.delete(label("a"));
    assert_eq!(store.get(label("a"), 0), None);
    assert_eq!(store.len(), 0);
}

#[test]
fn delete_twice_is_as_good_as_once() {
    let mut store = made(2);
    store.put(label("a"), 1, None, 0);
    store.put(label("b"), 2, None, 0);
    store.delete(label("a"));
    store.delete(label("a"));
    assert_eq!(store.len(), 1);
    assert_eq!(store.get(label("b"), 0), Some(2));
}

#[test]
fn delete_frees_a_slot() {
    let mut store = made(2);
    store.put(label("a"), 1, None, 0);
    store.put(label("b"), 2, None, 0);
    store.delete(label("b"));
    assert_eq!(store.len(), 1);
    store.put(label("c"), 3, None, 0);
    assert_eq!(store.len(), 2);
    assert_eq!(store.get(label("a"), 0), Some(1));
    assert_eq!(store.get(label("b"), 0), None);
    assert_eq!(store.get(label("c"), 0), Some(3));
}

#[test]
fn delete_of_the_oldest_key_spares_the_next() {
    let mut store = made(3);
    store.put(label("a"), 1, None, 0);
    store.put(label("b"), 2, None, 0);
    store.put(label("c"), 3, None, 0);
    store.delete(label("a"));
    store.put(label("d"), 4, None, 0);
    assert_eq!(store.len(), 3);
    store.put(label("e"), 5, None, 0);
    assert_eq!(store.get(label("b"), 0), None);
    assert_eq!(store.get(label("c"), 0), Some(3));
    assert_eq!(store.get(label("d"), 0), Some(4));
    assert_eq!(store.get(label("e"), 0), Some(5));
}

#[test]
fn a_deleted_key_can_be_put_again() {
    let mut store = made(2);
    store.put(label("a"), 1, Some(5), 0);
    store.delete(label("a"));
    store.put(label("a"), 2, None, 3);
    assert_eq!(store.get(label("a"), 100), Some(2));
    assert_eq!(store.len(), 1);
}
