//! The store itself: a map from key to entry and the recency order of the
//! keys, kept in step.
//!
//! Every operation takes the clock reading at which it happens, so what it
//! does is a function of its arguments: `model` says which.

use crate::entry::{deadline, Entry};
use crate::error::StoreError;
use crate::model::StoreState;
use crate::recency::{
    key_order, lemma_drop_first, order_insert, order_new, order_shift_remove,
    order_shift_remove_index,
};
use indexmap::IndexMap;
use vstd::hash_map::StringHashMap;
use vstd::prelude::*;

verus! {

/// The two tables of a store: the entries by key, and the keys in the order
/// of their last use.
#[verifier::reject_recursive_types(V)]
struct Tables<V> {
    map: StringHashMap<Entry<V>>,
    lru: IndexMap<String, ()>,
}

impl<V> Tables<V> {
    /// The state of a store of the given capacity with these tables.
    spec fn state(self, capacity: usize) -> StoreState<V> {
        StoreState { capacity: capacity as nat, entries: self.map@, recency: key_order(self.lru) }
    }

    /// Tables that hold nothing.
    fn empty() -> (tables: Self)
        ensures
            forall|capacity: usize| #[trigger]
                tables.state(capacity) == StoreState::<V>::empty(capacity as nat),
    {
        let tables = Tables { map: StringHashMap::new(), lru: order_new() };
        assert forall|capacity: usize| #[trigger]
            tables.state(capacity) == StoreState::<V>::empty(capacity as nat) by {
            assert(tables.state(capacity) =~= StoreState::<V>::empty(capacity as nat));
        }
        tables
    }
}

/// A bounded store of entries by key, which evicts the least recently used
/// key when it is full and forgets an expired entry when it is asked for.
///
/// A store is well-formed at every moment of its life: the type carries
/// that as its invariant, so no operation asks it of the caller.
#[verifier::reject_recursive_types(V)]
pub struct StoreInner<V> {
    tables: Tables<V>,
    capacity: usize,
}

impl<V> View for StoreInner<V> {
    type V = StoreState<V>;

    closed spec fn view(&self) -> StoreState<V> {
        self.tables.state(self.capacity)
    }
}

impl<V> StoreInner<V> {
    #[verifier::type_invariant]
    spec fn well_formed(self) -> bool {
        self@.wf()
    }

    /// Makes an empty store for at most `capacity` entries. A capacity of
    /// zero is refused.
    pub fn new(capacity: usize) -> (made: Result<Self, StoreError>)
        ensures
            capacity == 0 <==> made is Err,
            made matches Err(error) ==> error == StoreError::InvalidArgument,
            made matches Ok(store) ==> store@ == StoreState::<V>::empty(capacity as nat) && store@.wf(),
    {
        if capacity == 0 {
            return Err(StoreError::InvalidArgument);
        }
        proof {
            StoreState::<V>::lemma_empty_wf(capacity as nat);
        }
        Ok(StoreInner { tables: Tables::empty(), capacity })
    }

    /// The most entries that the store holds at a time.
    pub fn capacity(&self) -> (capacity: usize)
        ensures
            self@.wf(),
            capacity == self@.capacity,
            capacity >= 1,
    {
        proof {
            use_type_invariant(self);
        }
        self.capacity
    }

    /// How many entries the store holds, the expired ones that nobody has
    /// asked for included.
    pub fn len(&self) -> (count: usize)
        ensures
            self@.wf(),
            count == self@.entries.len(),
            count == self@.recency.len(),
            count <= self@.capacity,
    {
        proof {
            use_type_invariant(self);
            self@.lemma_len();
        }
        self.tables.map.len()
    }

    /// Takes the tables out of the store, which holds nothing until they are
    /// put back: whatever happens meanwhile, it stays well-formed.
    fn take_tables(&mut self) -> (tables: Tables<V>)
        ensures
            tables == old(self).tables,
            final(self).capacity == old(self).capacity,
    {
        proof {
            use_type_invariant(&*self);
            StoreState::<V>::lemma_empty_wf(self.capacity as nat);
        }
        let mut tables = Tables::empty();
        std::mem::swap(&mut tables, &mut self.tables);
        tables
    }

    /// Stores `value` under `key` at the clock reading `now`, to expire
    /// `ttl` nanoseconds later, or never without a `ttl`. The key becomes
    /// the most recently used. Where the key is new and the store is full,
    /// the least recently used key makes room.
    pub fn put(&mut self, key: String, value: V, ttl: Option<u64>, now: u64)
        ensures
            final(self)@ == old(self)@.put(key@, value, ttl, now),
            final(self)@.wf(),
    {
        proof {
            use_type_invariant(&*self);
            self@.lemma_put_wf(key@, value, ttl, now);
            self@.lemma_len();
        }
        let expires_at = deadline(now, ttl);
        let mut tables = self.take_tables();
        if tables.map.contains_key(key.as_str()) {
            order_shift_remove(&mut tables.lru, &key);
        } else if tables.map.len() >= self.capacity {
            proof {
                lemma_drop_first(key_order(tables.lru));
            }
            match order_shift_remove_index(&mut tables.lru, 0) {
                Some(oldest) => {
                    tables.map.remove(oldest.as_str());
                },
                None => {},
            }
        }
        tables.map.insert(key.clone(), Entry { value, expires_at });
        order_insert(&mut tables.lru, key);
        assert(tables.state(self.capacity) =~= old(self)@.put(key@, value, ttl, now));
        self.tables = tables;
    }

    /// Looks `key` up at the clock reading `now`. A live entry gives a
    /// clone of its value and becomes the most recently used; an expired
    /// one is removed, and the answer is `None` as for a key that is not
    /// there.
    pub fn get(&mut self, key: String, now: u64) -> (found: Option<V>) where V: Clone
        ensures
            final(self)@ == old(self)@.get(key@, now),
            final(self)@.wf(),
            found is Some <==> old(self)@.is_live(key@, now),
            found matches Some(value) ==> cloned(old(self)@.entries[key@].value, value),
    {
        proof {
            use_type_invariant(&*self);
            self@.lemma_get_wf(key@, now);
        }
        let held = match self.tables.map.get(key.as_str()) {
            None => {
                return None;
            },
            Some(entry) => if entry.is_expired(now) {
                None
            } else {
                Some(entry.value.clone())
            },
        };
        let mut tables = self.take_tables();
        order_shift_remove(&mut tables.lru, &key);
        match held {
            None => {
                tables.map.remove(key.as_str());
            },
            Some(_) => {
                order_insert(&mut tables.lru, key);
            },
        }
        assert(tables.state(self.capacity) =~= old(self)@.get(key@, now));
        self.tables = tables;
        held
    }

    /// Removes `key` and its entry. Nothing happens where the key is not
    /// there.
    pub fn delete(&mut self, key: String)
        ensures
            final(self)@ == old(self)@.delete(key@),
            final(self)@.wf(),
    {
        proof {
            use_type_invariant(&*self);
            self@.lemma_delete_wf(key@);
        }
        let mut tables = self.take_tables();
        tables.map.remove(key.as_str());
        order_shift_remove(&mut tables.lru, &key);
        assert(tables.state(self.capacity) =~= old(self)@.delete(key@));
        self.tables = tables;
    }
}

} // verus!
