//! Timestamps that stages are measured with.

use crate::host::{duration_as_nanos, duration_nanos, instant_checked_duration_since, instant_gap};
use std::time::Instant;
use vstd::prelude::*;

verus! {

/// A point in time that can be measured from an earlier one of its kind.
pub trait ComparativeTimestamp: Copy {
    /// The nanoseconds from `base` to `new`, or nothing where `new` lies
    /// before `base` or further from it than a `u64` counts.
    spec fn gap(base: Self, new: Self) -> Option<u64>;

    /// Measures `new` from `base`.
    fn difference(base: Self, new: Self) -> (elapsed: Option<u64>)
        ensures
            elapsed == Self::gap(base, new),
    ;
}

/// A count of nanoseconds as a `u64`, or nothing where it is beyond one.
pub open spec fn narrowed(nanos: u128) -> Option<u64> {
    if nanos <= u64::MAX {
        Some(nanos as u64)
    } else {
        None
    }
}

/// Brings a count of nanoseconds into a `u64`, or says that it is beyond
/// one.
pub fn narrow_nanos(nanos: u128) -> (narrow: Option<u64>)
    ensures
        narrow == narrowed(nanos),
{
    if nanos <= u64::MAX as u128 {
        Some(nanos as u64)
    } else {
        None
    }
}

/// A counter of nanoseconds.
impl ComparativeTimestamp for u64 {
    open spec fn gap(base: u64, new: u64) -> Option<u64> {
        if base <= new {
            Some((new - base) as u64)
        } else {
            None
        }
    }

    fn difference(base: u64, new: u64) -> (elapsed: Option<u64>) {
        if base <= new {
            Some(new - base)
        } else {
            None
        }
    }
}

/// A reading of the monotonic clock.
impl ComparativeTimestamp for Instant {
    open spec fn gap(base: Instant, new: Instant) -> Option<u64> {
        match instant_gap(base, new) {
            Some(span) => narrowed(duration_nanos(span)),
            None => None,
        }
    }

    fn difference(base: Instant, new: Instant) -> (elapsed: Option<u64>) {
        match instant_checked_duration_since(base, new) {
            Some(span) => narrow_nanos(duration_as_nanos(span)),
            None => None,
        }
    }
}

} // verus!
