//! The store as a mathematical object, and its four operations as functions
//! on it.
//!
//! A `StoreState` is what a store is to its callers: a capacity, the live
//! entries by key, and the keys in the order of their last use. The
//! executable store in `store` is proved to do to its view exactly what the
//! functions here say, so whatever is proved of them holds of the store.

use crate::entry::{deadline_after, Entry};
use crate::recency::{lemma_drop_first, lemma_push_fresh, lemma_without, without};
use vstd::prelude::*;

verus! {

/// The abstract state of a store.
#[verifier::ext_equal]
pub struct StoreState<V> {
    /// How many entries the store may hold at most. Never changes.
    pub capacity: nat,
    /// The entries that the store holds, by key.
    pub entries: Map<Seq<char>, Entry<V>>,
    /// The keys of `entries`, least recently used first.
    pub recency: Seq<Seq<char>>,
}

impl<V> StoreState<V> {
    /// The store right after it was made.
    pub open spec fn empty(capacity: nat) -> Self {
        StoreState { capacity, entries: Map::empty(), recency: Seq::empty() }
    }

    /// The invariant of the store: it has room for something, the recency
    /// order names each key of `entries` once and no other key, and there
    /// are no more keys than the capacity allows.
    pub open spec fn wf(self) -> bool {
        &&& self.capacity >= 1
        &&& self.recency.no_duplicates()
        &&& forall|k: Seq<char>|
            #![trigger self.entries.contains_key(k)]
            #![trigger self.recency.contains(k)]
            self.entries.contains_key(k) <==> self.recency.contains(k)
        &&& self.recency.len() <= self.capacity
    }

    /// The key that an eviction would take: the least recently used one.
    pub open spec fn oldest(self) -> Seq<char>
        recommends
            self.recency.len() > 0,
    {
        self.recency[0]
    }

    /// The store without its least recently used key. An empty store stays
    /// as it is.
    pub open spec fn evict_oldest(self) -> Self {
        if self.recency.len() > 0 {
            StoreState {
                entries: self.entries.remove(self.oldest()),
                recency: self.recency.drop_first(),
                ..self
            }
        } else {
            self
        }
    }

    /// The store after `put`: the key holds the new entry and is the most
    /// recently used. A key that was there keeps its slot; a new key in a
    /// full store takes the slot of the least recently used one.
    pub open spec fn put(self, key: Seq<char>, value: V, ttl: Option<u64>, now: u64) -> Self {
        let room = if self.entries.contains_key(key) {
            StoreState { recency: without(self.recency, key), ..self }
        } else if self.entries.len() >= self.capacity {
            self.evict_oldest()
        } else {
            self
        };
        StoreState {
            entries: room.entries.insert(key, Entry { value, expires_at: deadline_after(now, ttl) }),
            recency: room.recency.push(key),
            ..room
        }
    }

    /// Whether the store holds the key with an entry that has not expired
    /// at `now`.
    pub open spec fn is_live(self, key: Seq<char>, now: u64) -> bool {
        self.entries.contains_key(key) && !self.entries[key].expired_at(now)
    }

    /// The value that `get` hands out at `now`, if any.
    pub open spec fn lookup(self, key: Seq<char>, now: u64) -> Option<V> {
        if self.is_live(key, now) {
            Some(self.entries[key].value)
        } else {
            None
        }
    }

    /// The store after `get` at `now`: a live key becomes the most recently
    /// used, an expired one is gone, and a missing one changes nothing.
    pub open spec fn get(self, key: Seq<char>, now: u64) -> Self {
        if !self.entries.contains_key(key) {
            self
        } else if self.entries[key].expired_at(now) {
            self.delete(key)
        } else {
            StoreState { recency: without(self.recency, key).push(key), ..self }
        }
    }

    /// The store after `delete`: the key is gone from the entries and from
    /// the recency order.
    pub open spec fn delete(self, key: Seq<char>) -> Self {
        StoreState {
            entries: self.entries.remove(key),
            recency: without(self.recency, key),
            ..self
        }
    }

    /// In a well-formed store the entries are as many as the keys of the
    /// recency order, so never more than the capacity.
    pub proof fn lemma_len(self)
        requires
            self.wf(),
        ensures
            self.entries.dom().finite(),
            self.entries.len() == self.recency.len(),
            self.entries.len() <= self.capacity,
    {
        assert(self.entries.dom() =~= self.recency.to_set());
        vstd::seq_lib::seq_to_set_is_finite(self.recency);
        self.recency.unique_seq_to_set();
    }

    /// An empty store with room for something is well-formed.
    pub proof fn lemma_empty_wf(capacity: nat)
        requires
            capacity >= 1,
        ensures
            Self::empty(capacity).wf(),
            Self::empty(capacity).entries.len() == 0,
    {
    }

    /// Eviction keeps a store well-formed and takes exactly the least
    /// recently used key.
    pub proof fn lemma_evict_oldest_wf(self)
        requires
            self.wf(),
        ensures
            self.evict_oldest().wf(),
            self.recency.len() > 0 ==> !self.evict_oldest().entries.contains_key(self.oldest())
                && self.evict_oldest().recency.len() == self.recency.len() - 1,
    {
        if self.recency.len() > 0 {
            lemma_drop_first(self.recency);
            lemma_without(self.recency, self.oldest());
            assert(self.recency.contains(self.oldest()));
        }
    }

    /// `put` keeps a store well-formed.
    pub proof fn lemma_put_wf(self, key: Seq<char>, value: V, ttl: Option<u64>, now: u64)
        requires
            self.wf(),
        ensures
            self.put(key, value, ttl, now).wf(),
            self.put(key, value, ttl, now).capacity == self.capacity,
    {
        self.lemma_len();
        let room = if self.entries.contains_key(key) {
            StoreState { recency: without(self.recency, key), ..self }
        } else if self.entries.len() >= self.capacity {
            self.evict_oldest()
        } else {
            self
        };
        lemma_without(self.recency, key);
        self.lemma_evict_oldest_wf();
        assert(room.recency.no_duplicates());
        assert(!room.recency.contains(key));
        assert(room.recency.len() < self.capacity);
        lemma_push_fresh(room.recency, key);
    }

    /// `get` keeps a store well-formed.
    pub proof fn lemma_get_wf(self, key: Seq<char>, now: u64)
        requires
            self.wf(),
        ensures
            self.get(key, now).wf(),
            self.get(key, now).capacity == self.capacity,
    {
        lemma_without(self.recency, key);
        if self.is_live(key, now) {
            lemma_push_fresh(without(self.recency, key), key);
        }
    }

    /// `delete` keeps a store well-formed.
    pub proof fn lemma_delete_wf(self, key: Seq<char>)
        requires
            self.wf(),
        ensures
            self.delete(key).wf(),
            self.delete(key).capacity == self.capacity,
    {
        lemma_without(self.recency, key);
    }
}

} // verus!
