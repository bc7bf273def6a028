//! The store behind one lock, for callers on many threads.
//!
//! Each operation takes the lock, reads the clock, does its work on the
//! store and lets the lock go. The work is `StoreInner`'s, whose invariant
//! holds at every moment: no caller ever sees the entries and the recency
//! order out of step, whoever else is calling.

use crate::clock::MonotonicClock;
use crate::error::StoreError;
use crate::store::StoreInner;
use std::ops::DerefMut;
use std::sync::{LockResult, Mutex, MutexGuard, PoisonError};
use vstd::prelude::*;

verus! {

/// `std::sync::Mutex`, a lock around a value that one thread at a time may
/// use.
#[verifier::external_type_specification]
#[verifier::external_body]
#[verifier::reject_recursive_types(T)]
pub struct ExMutex<T: ?Sized>(Mutex<T>);

/// `std::sync::MutexGuard`, the right to use the value of a locked mutex.
/// The mutex is unlocked when the guard goes.
#[verifier::external_type_specification]
#[verifier::external_body]
#[verifier::reject_recursive_types(T)]
pub struct ExMutexGuard<'a, T: ?Sized + 'a>(MutexGuard<'a, T>);

/// `std::sync::PoisonError`, what locking gives where a thread has
/// panicked with the mutex locked. It holds the guard all the same.
#[verifier::external_type_specification]
#[verifier::external_body]
#[verifier::reject_recursive_types(T)]
pub struct ExPoisonError<T>(PoisonError<T>);

/// `Mutex::new` makes an unlocked mutex around the value. Nothing is
/// claimed of it.
pub assume_specification<T>[ Mutex::<T>::new ](value: T) -> (mutex: Mutex<T>)
;

/// `Mutex::lock` waits until the mutex is free and locks it. Nothing is
/// claimed of the value that the guard gives access to: it is whatever the
/// last holder left. A thread that holds the lock already must not call
/// this, so the function stays private to the operations below, each of
/// which locks once.
#[verifier::external_body]
fn lock_mutex<'a, T>(mutex: &'a Mutex<T>) -> (locked: LockResult<MutexGuard<'a, T>>) {
    mutex.lock()
}

/// `PoisonError::into_inner` hands out the guard that the error holds.
/// Nothing is claimed of it.
pub assume_specification<T>[ PoisonError::<T>::into_inner ](error: PoisonError<T>) -> (guard: T)
;

/// `DerefMut::deref_mut` of a guard gives the value of the locked mutex.
/// Nothing is claimed of it.
pub assume_specification<'a, 'b, T: ?Sized>[ <MutexGuard<'a, T> as DerefMut>::deref_mut ](
    guard: &'b mut MutexGuard<'a, T>,
) -> (value: &'b mut T)
;

/// A store that any number of threads may use at once. Operations on it are
/// served one at a time.
#[verifier::reject_recursive_types(V)]
pub struct KvStore<V> {
    inner: Mutex<StoreInner<V>>,
    clock: MonotonicClock,
}

impl<V> KvStore<V> {
    /// Makes an empty shared store for at most `capacity` entries, with a
    /// clock of its own. A capacity of zero is refused.
    pub fn new(capacity: usize) -> (made: Result<Self, StoreError>)
        ensures
            capacity == 0 <==> made is Err,
            made matches Err(error) ==> error == StoreError::InvalidArgument,
    {
        match StoreInner::new(capacity) {
            Ok(store) => Ok(KvStore { inner: Mutex::new(store), clock: MonotonicClock::new() }),
            Err(error) => Err(error),
        }
    }

    /// Locks the store. A thread that panicked with the lock held has left
    /// the store well-formed, as every store is, so its lock is taken over.
    fn lock(&self) -> (guard: MutexGuard<'_, StoreInner<V>>) {
        match lock_mutex(&self.inner) {
            Ok(guard) => guard,
            Err(poisoned) => poisoned.into_inner(),
        }
    }

    /// How many entries the store holds at the moment of the call, and how
    /// many it may hold: never more.
    pub fn occupancy(&self) -> (held_of: (usize, usize))
        ensures
            held_of.0 <= held_of.1,
            held_of.1 >= 1,
    {
        let mut guard = self.lock();
        let store = guard.deref_mut();
        (store.len(), store.capacity())
    }

    /// Stores `value` under `key`, to expire `ttl` nanoseconds from now, or
    /// never without a `ttl`.
    pub fn put(&self, key: String, value: V, ttl: Option<u64>) {
        let mut guard = self.lock();
        let now = self.clock.now();
        guard.deref_mut().put(key, value, ttl, now);
    }

    /// Hands out a clone of the value under `key`, unless the key is not
    /// there or its entry has expired.
    pub fn get(&self, key: String) -> (found: Option<V>) where V: Clone {
        let mut guard = self.lock();
        let now = self.clock.now();
        guard.deref_mut().get(key, now)
    }

    /// Removes `key` and its entry, if it is there.
    pub fn delete(&self, key: String) {
        let mut guard = self.lock();
        guard.deref_mut().delete(key);
    }
}

} // verus!
