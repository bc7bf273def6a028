//! The monotonic clock that the shared store reads.
//!
//! A reading is the number of nanoseconds since the clock was made. Nothing
//! is known of a reading before it is taken, so the store's operations take
//! the reading as an argument and are proved for every value of it.

use std::time::{Duration, Instant};
use vstd::prelude::*;

verus! {

/// `std::time::Instant`, a reading of the system's monotonic clock. The
/// library carries such a reading about and never looks inside it.
#[verifier::external_type_specification]
#[verifier::external_body]
pub struct ExInstant(Instant);

/// `Instant::now` reads the system's monotonic clock. Nothing is claimed of
/// the reading.
pub assume_specification[ Instant::now ]() -> (reading: Instant)
;

/// `Instant::saturating_duration_since` measures the time from `earlier` to
/// `later`, and gives zero where `earlier` is the later of the two. Nothing
/// is claimed of the measure.
pub assume_specification[ Instant::saturating_duration_since ](
    later: &Instant,
    earlier: Instant,
) -> (gone: Duration)
;

/// `Duration::as_nanos` gives a span of time in nanoseconds. Nothing is
/// claimed of the number.
pub assume_specification[ Duration::as_nanos ](span: &Duration) -> (nanos: u128)
;

/// The `u64` nearest to a number of nanoseconds.
pub open spec fn nearest_u64(nanos: u128) -> u64 {
    if nanos <= u64::MAX {
        nanos as u64
    } else {
        u64::MAX
    }
}

/// Brings a number of nanoseconds into a `u64`: a number too large for one
/// becomes the largest.
pub fn saturate_nanos(nanos: u128) -> (reading: u64)
    ensures
        reading == nearest_u64(nanos),
{
    if nanos <= u64::MAX as u128 {
        nanos as u64
    } else {
        u64::MAX
    }
}

/// A clock that counts nanoseconds from the moment it was made and never
/// runs backwards.
pub struct MonotonicClock {
    origin: Instant,
}

impl MonotonicClock {
    /// Starts a clock at zero.
    pub fn new() -> (clock: Self) {
        MonotonicClock { origin: Instant::now() }
    }

    /// Reads the clock.
    pub fn now(&self) -> (reading: u64) {
        let gone = Instant::now().saturating_duration_since(self.origin);
        saturate_nanos(gone.as_nanos())
    }
}

} // verus!
