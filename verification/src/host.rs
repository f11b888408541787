//! What the pacer takes from its host: the monotonic clock of the standard
//! library and the sleeper of `spin_sleep`. Nothing in this file is proved;
//! each item says what it takes on trust.

use spin_sleep::SpinSleeper;
use std::time::{Duration, Instant};
use vstd::prelude::*;

verus! {

/// `std::time::Instant`: a point on the monotonic clock, of which nothing is
/// known but what the items below say.
#[verifier::external_type_specification]
#[verifier::external_body]
pub struct ExInstant(Instant);

/// `spin_sleep::SpinSleeper`: the setting that a sleep is made with.
#[verifier::external_type_specification]
#[verifier::external_body]
pub struct ExSpinSleeper(SpinSleeper);

/// What `Instant::checked_duration_since` gives for the time from `earlier`
/// to `later`: a duration, or nothing where `later` lies before `earlier`.
pub uninterp spec fn instant_gap(earlier: Instant, later: Instant) -> Option<Duration>;

/// What `Duration::as_nanos` gives: the whole of a duration in nanoseconds.
pub uninterp spec fn duration_nanos(span: Duration) -> u128;

/// `Instant::checked_duration_since`, called on `later` with `earlier`. Taken
/// on trust: two calls on the same two instants give the same answer.
#[verifier::external_body]
pub(crate) fn instant_checked_duration_since(earlier: Instant, later: Instant) -> (gap: Option<
    Duration,
>)
    ensures
        gap == instant_gap(earlier, later),
{
    later.checked_duration_since(earlier)
}

/// `Duration::as_nanos`. Taken on trust: two calls on the same duration give
/// the same count.
#[verifier::external_body]
pub(crate) fn duration_as_nanos(span: Duration) -> (nanos: u128)
    ensures
        nanos == duration_nanos(span),
{
    span.as_nanos()
}

/// `Instant::now`: the reading of the monotonic clock at the call. Nothing
/// is claimed of it.
#[verifier::external_body]
pub(crate) fn instant_now() -> Instant {
    Instant::now()
}

/// `Instant::elapsed`: the time that the monotonic clock has counted since
/// `origin`. Nothing is claimed of it.
#[verifier::external_body]
pub(crate) fn instant_elapsed(origin: &Instant) -> Duration {
    origin.elapsed()
}

/// `SpinSleeper::default`: the sleeper with the accuracy that suits the
/// operating system. Nothing is claimed of it.
#[verifier::external_body]
pub(crate) fn default_sleeper() -> SpinSleeper {
    SpinSleeper::default()
}

/// `SpinSleeper::sleep_ns`: blocks the calling thread until `nanos`
/// nanoseconds have passed. Nothing is claimed of it. The wait is held to two
/// seconds, far from a deadline that the clock could not represent.
#[verifier::external_body]
pub(crate) fn sleep_nanos(sleeper: &SpinSleeper, nanos: u64)
    requires
        nanos <= 2_000_000_000,
{
    sleeper.sleep_ns(nanos)
}

} // verus!
