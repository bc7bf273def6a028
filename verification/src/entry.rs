//! What the store keeps for one key: the value and the moment it expires.
//!
//! Time is a reading of a monotonic clock, a number of nanoseconds in a
//! `u64`. A time-to-live is a number of nanoseconds too.

use vstd::prelude::*;

verus! {

/// The payload of one key.
pub struct Entry<V> {
    /// The caller's value. The store never looks inside it.
    pub value: V,
    /// The first clock reading at which the entry counts as expired, or
    /// `None` for an entry that never expires.
    pub expires_at: Option<u64>,
}

/// The deadline of an entry written at `now` with the time-to-live `ttl`.
///
/// Without a time-to-live there is none. A deadline that no clock reading
/// can reach, because `now + ttl` is more than a `u64` holds, is none either:
/// the entry is live at every reading.
pub open spec fn deadline_after(now: u64, ttl: Option<u64>) -> Option<u64> {
    match ttl {
        Some(span) => if now + span <= u64::MAX {
            Some((now + span) as u64)
        } else {
            None
        },
        None => None,
    }
}

/// Computes the deadline of an entry written at `now`.
pub fn deadline(now: u64, ttl: Option<u64>) -> (expires_at: Option<u64>)
    ensures
        expires_at == deadline_after(now, ttl),
{
    match ttl {
        Some(span) => if span <= u64::MAX - now {
            Some(now + span)
        } else {
            None
        },
        None => None,
    }
}

impl<V> Entry<V> {
    /// Whether the entry counts as expired at the reading `now`: its
    /// deadline has been reached or passed.
    pub open spec fn expired_at(self, now: u64) -> bool {
        match self.expires_at {
            Some(limit) => now >= limit,
            None => false,
        }
    }

    /// Tells whether the entry has expired at the reading `now`.
    pub fn is_expired(&self, now: u64) -> (expired: bool)
        ensures
            expired == self.expired_at(now),
    {
        match self.expires_at {
            Some(limit) => now >= limit,
            None => false,
        }
    }
}

/// An entry written at `now` with a time-to-live is expired at a reading
/// exactly when that much time has gone by; one written without never is.
pub proof fn lemma_deadline_is_exact<V>(value: V, now: u64, ttl: Option<u64>, later: u64)
    ensures
        (Entry { value, expires_at: deadline_after(now, ttl) }).expired_at(later) <==> (ttl matches Some(span)
            && later >= now + span),
{
}

} // verus!
