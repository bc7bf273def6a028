use rust_kv::clock::{saturate_nanos, MonotonicClock};
use rust_kv::kv::KvStore;
use std::sync::Arc;

const HOUR: u64 = 3_600_000_000_000;

fn named(key: &str) -> String {
    key.to_string()
}

fn wait_for(clock: &MonotonicClock, nanos: u64) {
    let start = clock.now();
    while clock.now() - start < nanos {
        std::hint::spin_loop();
    }
}

#[test]
fn nanoseconds_that_fit_are_kept() {
    assert_eq!(saturate_nanos(0), 0);
    assert_eq!(saturate_nanos(1), 1);
    assert_eq!(saturate_nanos(1_500_000_000), 1_500_000_000);
    assert_eq!(saturate_nanos(u64::MAX as u128), u64::MAX);
}

#[test]
fn nanoseconds_that_do_not_fit_become_the_largest() {
    assert_eq!(saturate_nanos(u64::MAX as u128 + 1), u64::MAX);
    assert_eq!(saturate_nanos(u128::MAX), u64::MAX);
}

#[test]
fn the_clock_does_not_run_backwards() {
    let clock = MonotonicClock::new();
    let mut last = clock.now();
    for _ in 0..10_000 {
        let reading = clock.now();
        assert!(reading >= last);
        last = reading;
    }
}

#[test]
fn the_clock_moves_on() {
    let clock = MonotonicClock::new();
    let first = clock.now();
    wait_for(&clock, 1_000_000);
    assert!(clock.now() >= first + 1_000_000);
}

#[test]
fn the_shared_store_evicts_the_least_recently_used() {
    let shared = KvStore::<u64>::new(2).ok().unwrap();
    shared.put(named("a"), 1, None);
    shared.put(named("b"), 2, None);
    assert_eq!(shared.get(named("a")), Some(1));
    shared.put(named("c"), 3, None);
    assert_eq!(shared.occupancy(), (2, 2));
    assert_eq!(shared.get(named("b")), None);
    assert_eq!(shared.get(named("a")), Some(1));
    assert_eq!(shared.get(named("c")), Some(3));
}

#[test]
fn the_shared_store_deletes() {
    let shared = KvStore::<String>::new(2).ok().unwrap();
    shared.delete(named("a"));
    shared.put(named("a"), named("one"), None);
    shared.put(named("b"), named("two"), None);
    shared.delete(named("a"));
    assert_eq!(shared.occupancy(), (1, 2));
    assert_eq!(shared.get(named("a")), None);
    shared.put(named("c"), named("three"), None);
    assert_eq!(shared.get(named("b")), Some(named("two")));
    assert_eq!(shared.get(named("c")), Some(named("three")));
}

#[test]
fn the_shared_store_expires_by_its_own_clock() {
    let shared = KvStore::<u64>::new(4).ok().unwrap();
    shared.put(named("gone"), 1, Some(0));
    shared.put(named("brief"), 2, Some(2_000_000));
    shared.put(named("long"), 3, Some(HOUR));
    shared.put(named("forever"), 4, None);
    assert_eq!(shared.occupancy(), (4, 4));
    assert_eq!(shared.get(named("gone")), None);
    assert_eq!(shared.occupancy(), (3, 4));
    wait_for(&MonotonicClock::new(), 5_000_000);
    assert_eq!(shared.get(named("brief")), None);
    assert_eq!(shared.get(named("long")), Some(3));
    assert_eq!(shared.get(named("forever")), Some(4));
    assert_eq!(shared.occupancy(), (2, 4));
}

#[test]
fn the_shared_store_takes_the_largest_ttl() {
    let shared = KvStore::<u64>::new(1).ok().unwrap();
    shared.put(named("a"), 1, Some(u64::MAX));
    assert_eq!(shared.get(named("a")), Some(1));
}

#[test]
fn many_callers_leave_the_store_in_step() {
    let capacity = 8usize;
    let shared = Arc::new(KvStore::<u64>::new(capacity).ok().unwrap());
    let callers: Vec<Arc<KvStore<u64>>> = (0..4).map(|_| Arc::clone(&shared)).collect();
    for round in 0..500u64 {
        for (seat, caller) in callers.iter().enumerate() {
            let key = format!("k{}", (seat as u64 * 7 + round * 3) % 19);
            caller.put(key.clone(), round, None);
            assert_eq!(caller.get(key.clone()), Some(round));
            if (round + seat as u64) % 3 == 0 {
                caller.delete(key.clone());
                assert_eq!(caller.get(key), None);
            }
            let (held, limit) = shared.occupancy();
            assert!(held <= limit && limit == capacity);
        }
    }
    let (held, _) = shared.occupancy();
    assert!(held <= capacity);
    // Fresh keys push out every key that is still there, one for one: the
    // recency order names exactly the keys that the store holds.
    for fresh in 0..capacity {
        shared.put(format!("fresh{fresh}"), fresh as u64, None);
        assert_eq!(shared.occupancy().0, (held + fresh + 1).min(capacity));
    }
    for old in 0..19 {
        assert_eq!(shared.get(format!("k{old}")), None);
    }
    for fresh in 0..capacity {
        assert_eq!(shared.get(format!("fresh{fresh}")), Some(fresh as u64));
    }
    assert_eq!(shared.occupancy(), (capacity, capacity));
}
