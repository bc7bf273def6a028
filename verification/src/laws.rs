//! What holds of the store in every state, proved from the model.
//!
//! Each lemma speaks of an arbitrary well-formed store, so it holds after
//! any history of operations.

use crate::entry::{deadline_after, lemma_deadline_is_exact, Entry};
use crate::model::StoreState;
use crate::recency::{lemma_without, without};
use vstd::prelude::*;

verus! {

/// One request to the store, with the clock reading at which it is served.
pub enum Op<V> {
    Put { key: Seq<char>, value: V, ttl: Option<u64>, now: u64 },
    Get { key: Seq<char>, now: u64 },
    Delete { key: Seq<char> },
}

impl<V> Op<V> {
    /// The key that the request is about.
    pub open spec fn key(self) -> Seq<char> {
        match self {
            Op::Put { key, .. } => key,
            Op::Get { key, .. } => key,
            Op::Delete { key } => key,
        }
    }
}

/// The keys of a series of requests, in the order of the requests.
pub open spec fn keys_of<V>(ops: Seq<Op<V>>) -> Seq<Seq<char>> {
    Seq::new(ops.len(), |i: int| ops[i].key())
}

/// The last `count` of `keys`, or all of them where they are no more.
pub open spec fn newest(keys: Seq<Seq<char>>, count: nat) -> Seq<Seq<char>> {
    if keys.len() <= count {
        keys
    } else {
        keys.subrange(keys.len() - count, keys.len() as int)
    }
}

impl<V> StoreState<V> {
    /// The store after one request.
    pub open spec fn step(self, op: Op<V>) -> Self {
        match op {
            Op::Put { key, value, ttl, now } => self.put(key, value, ttl, now),
            Op::Get { key, now } => self.get(key, now),
            Op::Delete { key } => self.delete(key),
        }
    }

    /// The store after a series of requests, served in order.
    pub open spec fn run(self, ops: Seq<Op<V>>) -> Self
        decreases ops.len(),
    {
        if ops.len() == 0 {
            self
        } else {
            self.run(ops.drop_last()).step(ops.last())
        }
    }
}

/// Whatever requests a store serves, in whatever order, it stays
/// well-formed, keeps its capacity and never holds more entries than that.
pub proof fn lemma_capacity_is_never_exceeded<V>(start: StoreState<V>, ops: Seq<Op<V>>)
    requires
        start.wf(),
    ensures
        start.run(ops).wf(),
        start.run(ops).capacity == start.capacity,
        start.run(ops).entries.len() <= start.capacity,
    decreases ops.len(),
{
    if ops.len() > 0 {
        lemma_capacity_is_never_exceeded(start, ops.drop_last());
        let before = start.run(ops.drop_last());
        match ops.last() {
            Op::Put { key, value, ttl, now } => before.lemma_put_wf(key, value, ttl, now),
            Op::Get { key, now } => before.lemma_get_wf(key, now),
            Op::Delete { key } => before.lemma_delete_wf(key),
        }
    }
    start.run(ops).lemma_len();
}

/// An empty store into which keys are put, each once, holds the newest of
/// them, as many as its capacity allows, the oldest of these first: each
/// put beyond the capacity has evicted the oldest key that was left.
pub proof fn lemma_newest_keys_survive<V>(capacity: nat, puts: Seq<Op<V>>)
    requires
        capacity >= 1,
        forall|i: int| 0 <= i < puts.len() ==> #[trigger] puts[i] is Put,
        keys_of(puts).no_duplicates(),
    ensures
        StoreState::<V>::empty(capacity).run(puts).wf(),
        StoreState::<V>::empty(capacity).run(puts).recency == newest(keys_of(puts), capacity),
    decreases puts.len(),
{
    let start = StoreState::<V>::empty(capacity);
    lemma_capacity_is_never_exceeded(start, puts);
    if puts.len() > 0 {
        let earlier = puts.drop_last();
        let keys = keys_of(puts);
        assert(keys_of(earlier) =~= keys.drop_last());
        assert forall|i: int, j: int|
            0 <= i < keys_of(earlier).len() && 0 <= j < keys_of(earlier).len() && i != j implies keys_of(
            earlier,
        )[i] != keys_of(earlier)[j] by {
            assert(keys[i] != keys[j]);
        }
        lemma_newest_keys_survive::<V>(capacity, earlier);
        let before = start.run(earlier);
        before.lemma_len();
        let key = puts.last().key();
        assert(key == keys[keys.len() - 1]);
        if before.recency.contains(key) {
            let at = before.recency.index_of(key);
            let from = if keys.len() - 1 <= capacity {
                at
            } else {
                keys.len() - 1 - capacity + at
            };
            assert(keys[from] == key);
        }
        assert(!before.entries.contains_key(key));
        assert(puts.last() is Put);
        assert(start.run(puts).recency =~= newest(keys, capacity));
    }
}

/// A new key put into a full store evicts the least recently used key and
/// no other: every other entry stays as it was, and the new key is the most
/// recently used.
pub proof fn lemma_put_evicts_least_recently_used<V>(
    store: StoreState<V>,
    key: Seq<char>,
    value: V,
    ttl: Option<u64>,
    now: u64,
)
    requires
        store.wf(),
        !store.entries.contains_key(key),
        store.entries.len() == store.capacity,
    ensures
        !store.put(key, value, ttl, now).entries.contains_key(store.oldest()),
        forall|k: Seq<char>|
            k != store.oldest() && store.entries.contains_key(k) ==> #[trigger] store.put(
                key,
                value,
                ttl,
                now,
            ).entries.contains_key(k) && store.put(key, value, ttl, now).entries[k] == store.entries[k],
        store.put(key, value, ttl, now).entries.len() == store.capacity,
        store.put(key, value, ttl, now).recency == store.recency.drop_first().push(key),
{
    store.lemma_len();
    store.lemma_put_wf(key, value, ttl, now);
    store.put(key, value, ttl, now).lemma_len();
    assert(store.recency.contains(store.oldest()));
}

/// A new key put into a store with room evicts nothing.
pub proof fn lemma_put_with_room_evicts_nothing<V>(
    store: StoreState<V>,
    key: Seq<char>,
    value: V,
    ttl: Option<u64>,
    now: u64,
)
    requires
        store.wf(),
        !store.entries.contains_key(key),
        store.entries.len() < store.capacity,
    ensures
        store.put(key, value, ttl, now).entries == store.entries.insert(
            key,
            Entry { value, expires_at: deadline_after(now, ttl) },
        ),
        store.put(key, value, ttl, now).recency == store.recency.push(key),
        store.put(key, value, ttl, now).entries.len() == store.entries.len() + 1,
{
    store.lemma_len();
    store.lemma_put_wf(key, value, ttl, now);
    store.put(key, value, ttl, now).lemma_len();
}

/// Putting a key that is there again replaces its value and deadline,
/// makes it the most recently used, and evicts nothing: the store holds the
/// same keys as before, however full it is.
pub proof fn lemma_put_again_keeps_every_key<V>(
    store: StoreState<V>,
    key: Seq<char>,
    value: V,
    ttl: Option<u64>,
    now: u64,
)
    requires
        store.wf(),
        store.entries.contains_key(key),
    ensures
        store.put(key, value, ttl, now).entries == store.entries.insert(
            key,
            Entry { value, expires_at: deadline_after(now, ttl) },
        ),
        store.put(key, value, ttl, now).entries.dom() == store.entries.dom(),
        store.put(key, value, ttl, now).entries.len() == store.entries.len(),
        store.put(key, value, ttl, now).recency == without(store.recency, key).push(key),
        store.put(key, value, ttl, now).recency.last() == key,
{
    assert(store.put(key, value, ttl, now).entries.dom() =~= store.entries.dom());
}

/// After `put` the key is the most recently used and live at the reading
/// of the `put`, unless it was given no time to live at all.
pub proof fn lemma_put_makes_most_recent<V>(
    store: StoreState<V>,
    key: Seq<char>,
    value: V,
    ttl: Option<u64>,
    now: u64,
)
    requires
        store.wf(),
    ensures
        store.put(key, value, ttl, now).entries.contains_key(key),
        store.put(key, value, ttl, now).entries[key].value == value,
        store.put(key, value, ttl, now).recency.last() == key,
        ttl != Some(0u64) ==> store.put(key, value, ttl, now).lookup(key, now) == Some(value),
{
}

/// `get` on a live key makes it the most recently used and changes nothing
/// else: the entries, their deadlines included, stay as they were, and the
/// other keys keep their order.
pub proof fn lemma_get_promotes<V>(store: StoreState<V>, key: Seq<char>, now: u64)
    requires
        store.wf(),
        store.is_live(key, now),
    ensures
        store.lookup(key, now) == Some(store.entries[key].value),
        store.get(key, now).entries == store.entries,
        store.get(key, now).recency == without(store.recency, key).push(key),
        store.get(key, now).recency.last() == key,
        store.recency.len() >= 2 ==> store.get(key, now).oldest() != key,
{
    lemma_without(store.recency, key);
    let rest = without(store.recency, key);
    assert(store.recency.contains(key));
    if store.recency.len() >= 2 {
        assert(rest.len() >= 1);
        assert(rest.push(key)[0] == rest[0]);
        assert(rest.contains(rest[0]));
    }
}

/// `get` on a key that is not live answers `None`; the key is not in the
/// store afterwards, and the other entries are untouched.
pub proof fn lemma_get_purges_dead_key<V>(store: StoreState<V>, key: Seq<char>, now: u64)
    requires
        store.wf(),
        !store.is_live(key, now),
    ensures
        store.lookup(key, now) is None,
        !store.get(key, now).entries.contains_key(key),
        store.get(key, now).entries == store.entries.remove(key),
        store.get(key, now).recency == without(store.recency, key),
{
    lemma_without(store.recency, key);
    if !store.entries.contains_key(key) {
        assert(store.entries.remove(key) =~= store.entries);
    }
}

/// A key put at `now` with `span` nanoseconds to live is handed out at
/// every reading before `now + span` and at none from then on. The first
/// `get` from then on removes it, which frees its slot.
pub proof fn lemma_ttl_expiry<V>(
    store: StoreState<V>,
    key: Seq<char>,
    value: V,
    span: u64,
    now: u64,
    later: u64,
)
    requires
        store.wf(),
    ensures
        later < now + span ==> store.put(key, value, Some(span), now).lookup(key, later) == Some(value),
        later >= now + span ==> store.put(key, value, Some(span), now).lookup(key, later) is None,
        later >= now + span ==> !store.put(key, value, Some(span), now).get(
            key,
            later,
        ).entries.contains_key(key) && store.put(key, value, Some(span), now).get(key, later).entries.len()
            == store.put(key, value, Some(span), now).entries.len() - 1,
{
    let stored = store.put(key, value, Some(span), now);
    lemma_deadline_is_exact(value, now, Some(span), later);
    store.lemma_put_wf(key, value, Some(span), now);
    if later >= now + span {
        stored.lemma_get_wf(key, later);
        stored.lemma_len();
        stored.get(key, later).lemma_len();
        lemma_without(stored.recency, key);
        assert(stored.recency.contains(key));
    }
}

/// A key put without a time to live is handed out at every reading.
pub proof fn lemma_no_ttl_never_expires<V>(
    store: StoreState<V>,
    key: Seq<char>,
    value: V,
    now: u64,
    later: u64,
)
    requires
        store.wf(),
    ensures
        store.put(key, value, None, now).lookup(key, later) == Some(value),
{
}

/// `delete` on a key that is not there changes nothing.
pub proof fn lemma_delete_absent_is_noop<V>(store: StoreState<V>, key: Seq<char>)
    requires
        store.wf(),
        !store.entries.contains_key(key),
    ensures
        store.delete(key) == store,
{
    assert(store.entries.remove(key) =~= store.entries);
    assert(store.delete(key) =~= store);
}

/// `delete` on a key that is there removes it and nothing else, and frees
/// one slot: a new key put next evicts nothing.
pub proof fn lemma_delete_frees_a_slot<V>(
    store: StoreState<V>,
    key: Seq<char>,
    next: Seq<char>,
    value: V,
    ttl: Option<u64>,
    now: u64,
)
    requires
        store.wf(),
        store.entries.contains_key(key),
        !store.delete(key).entries.contains_key(next),
    ensures
        store.delete(key).lookup(key, now) is None,
        store.delete(key).entries == store.entries.remove(key),
        store.delete(key).entries.len() == store.entries.len() - 1,
        store.delete(key).put(next, value, ttl, now).entries == store.entries.remove(key).insert(
            next,
            Entry { value, expires_at: deadline_after(now, ttl) },
        ),
{
    let smaller = store.delete(key);
    store.lemma_delete_wf(key);
    store.lemma_len();
    smaller.lemma_len();
    lemma_without(store.recency, key);
    assert(store.recency.contains(key));
    lemma_put_with_room_evicts_nothing(smaller, next, value, ttl, now);
}

} // verus!
