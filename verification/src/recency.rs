//! The recency list of the store: its keys, least recently used first.
//!
//! The list is kept in an `indexmap::IndexMap`, which finds a key in constant
//! time and keeps the keys in a fixed order. This module states what the
//! store relies on from that map and proves the facts about the order that
//! the eviction policy needs.

use indexmap::IndexMap;
use vstd::prelude::*;

verus! {

/// `indexmap::IndexMap`, a hash map that keeps its keys in a fixed order.
/// What such a map holds is spoken of through `key_order` alone.
#[verifier::external_type_specification]
#[verifier::external_body]
#[verifier::reject_recursive_types(K)]
#[verifier::reject_recursive_types(V)]
#[verifier::reject_recursive_types(S)]
pub struct ExIndexMap<K, V, S>(IndexMap<K, V, S>);

/// The keys that an ordered map holds, in the order of their positions. A
/// map holds each key once.
pub uninterp spec fn key_order(m: IndexMap<String, ()>) -> Seq<Seq<char>>;

/// `order` with the position of `key` taken out, the other keys keeping
/// their relative order. Without `key` in it, `order` itself.
pub open spec fn without(order: Seq<Seq<char>>, key: Seq<char>) -> Seq<Seq<char>> {
    if order.contains(key) {
        order.remove(order.index_of(key))
    } else {
        order
    }
}

/// `IndexMap::new`: the new map holds no key.
#[verifier::external_body]
pub(crate) fn order_new() -> (m: IndexMap<String, ()>)
    ensures
        key_order(m) == Seq::<Seq<char>>::empty(),
{
    IndexMap::new()
}

/// `IndexMap::insert`: a key that the map does not hold yet takes the last
/// position; one that it holds keeps its position, and the map's order is
/// unchanged. The result tells whether the key was there before.
#[verifier::external_body]
pub(crate) fn order_insert(m: &mut IndexMap<String, ()>, key: String) -> (previous: Option<()>)
    ensures
        previous.is_some() == key_order(*old(m)).contains(key@),
        key_order(*final(m)) == if key_order(*old(m)).contains(key@) {
            key_order(*old(m))
        } else {
            key_order(*old(m)).push(key@)
        },
{
    m.insert(key, ())
}

/// `IndexMap::shift_remove`: the key leaves the map and the keys behind it
/// move up by one position, in their order. The result tells whether the
/// key was there.
#[verifier::external_body]
pub(crate) fn order_shift_remove(m: &mut IndexMap<String, ()>, key: &String) -> (removed: Option<()>)
    ensures
        removed.is_some() == key_order(*old(m)).contains(key@),
        key_order(*final(m)) == without(key_order(*old(m)), key@),
{
    m.shift_remove(key)
}

/// `IndexMap::shift_remove_index`: with `index` a position of the map, the
/// key there leaves the map and is returned, and the keys behind it move up
/// by one position; with any other `index` the map is unchanged and the
/// result is `None`.
#[verifier::external_body]
pub(crate) fn order_shift_remove_index(m: &mut IndexMap<String, ()>, index: usize) -> (removed: Option<String>)
    ensures
        index < key_order(*old(m)).len() ==> removed.is_some()
            && removed.unwrap()@ == key_order(*old(m))[index as int]
            && key_order(*final(m)) == key_order(*old(m)).remove(index as int),
        index >= key_order(*old(m)).len() ==> removed.is_none()
            && key_order(*final(m)) == key_order(*old(m)),
{
    m.shift_remove_index(index).map(|pair| pair.0)
}

/// Taking a key out of an order without repeats leaves an order without
/// repeats, which holds every other key as before and the key itself no more.
pub proof fn lemma_without(order: Seq<Seq<char>>, key: Seq<char>)
    requires
        order.no_duplicates(),
    ensures
        without(order, key).no_duplicates(),
        !without(order, key).contains(key),
        forall|k: Seq<char>|
            #![trigger without(order, key).contains(k)]
            #![trigger order.contains(k)]
            k != key ==> (without(order, key).contains(k) <==> order.contains(k)),
        order.contains(key) ==> without(order, key).len() == order.len() - 1,
        !order.contains(key) ==> without(order, key) == order,
{
    if order.contains(key) {
        let at = order.index_of(key);
        let rest = order.remove(at);
        order.remove_ensures(at);
        assert forall|k: Seq<char>| k != key && order.contains(k) implies rest.contains(k) by {
            let i = order.index_of(k);
            if i < at {
                assert(rest[i] == k);
            } else {
                assert(rest[i - 1] == k);
            }
        }
        assert forall|k: Seq<char>| rest.contains(k) implies order.contains(k) && k != key by {
            let i = rest.index_of(k);
            if i < at {
                assert(order[i] == k);
            } else {
                assert(order[i + 1] == k);
            }
        }
        assert forall|i: int, j: int| 0 <= i < rest.len() && 0 <= j < rest.len() && i != j implies rest[i]
            != rest[j] by {
            let from_i = if i < at { i } else { i + 1 };
            let from_j = if j < at { j } else { j + 1 };
            assert(rest[i] == order[from_i]);
            assert(rest[j] == order[from_j]);
        }
    }
}

/// Putting a key that an order without repeats does not hold behind its last
/// key leaves an order without repeats.
pub proof fn lemma_push_fresh(order: Seq<Seq<char>>, key: Seq<char>)
    requires
        order.no_duplicates(),
        !order.contains(key),
    ensures
        order.push(key).no_duplicates(),
        forall|k: Seq<char>|
            #![trigger order.push(key).contains(k)]
            #![trigger order.contains(k)]
            order.push(key).contains(k) <==> (k == key || order.contains(k)),
{
    let longer = order.push(key);
    assert forall|k: Seq<char>| longer.contains(k) <==> (k == key || order.contains(k)) by {
        vstd::seq_lib::lemma_seq_contains_after_push(order, key, k);
    }
    assert forall|i: int, j: int| 0 <= i < longer.len() && 0 <= j < longer.len() && i != j implies longer[i]
        != longer[j] by {
        if i < order.len() {
            assert(order.contains(longer[i]));
        }
        if j < order.len() {
            assert(order.contains(longer[j]));
        }
    }
}

/// An order without repeats that loses its first key is the order without
/// that key.
pub proof fn lemma_drop_first(order: Seq<Seq<char>>)
    requires
        order.no_duplicates(),
        order.len() > 0,
    ensures
        order.drop_first() == without(order, order[0]),
        order.drop_first() == order.remove(0),
{
    assert(order.contains(order[0]));
    let at = order.index_of(order[0]);
    assert(at == 0);
    assert(order.remove(0) =~= order.drop_first());
}

} // verus!
