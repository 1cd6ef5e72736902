//! The clock and durations the event loop works with. A duration is known
//! here by its length in nanoseconds, `duration_nanos`.

use std::time::{Duration, Instant};
use vstd::prelude::*;

verus! {

/// `std::time::Instant`, carried opaquely through the runner.
#[verifier::external_type_specification]
#[verifier::external_body]
pub struct ExInstant(std::time::Instant);

/// Reads the monotonic clock through `std::time::Instant::now`.
/// Nothing is stated of the instant returned: it depends on when the call is made.
#[verifier::external_body]
pub(crate) fn instant_now() -> Instant {
    Instant::now()
}

/// What `std::time::Duration::as_nanos` returns: the total number of
/// nanoseconds the duration holds.
pub uninterp spec fn duration_nanos(d: Duration) -> u128;

/// What `std::time::Instant::saturating_duration_since` returns for
/// `later.saturating_duration_since(earlier)`: the time from `earlier` to
/// `later`, or zero when `earlier` is the later one.
pub uninterp spec fn instant_duration_since(later: Instant, earlier: Instant) -> Duration;

/// Whether `a` is no longer than `b`.
pub open spec fn duration_le(a: Duration, b: Duration) -> bool {
    duration_nanos(a) <= duration_nanos(b)
}

/// Calls `Duration::as_nanos`: the total number of nanoseconds in `d`.
#[verifier::external_body]
pub(crate) fn duration_as_nanos(d: &Duration) -> (nanos: u128)
    ensures
        nanos == duration_nanos(*d),
{
    d.as_nanos()
}

/// Compares two durations with `<=` (`Duration`'s `PartialOrd`), which
/// orders durations by their length; as `Ord` is antisymmetric, two
/// durations each no longer than the other are equal.
#[verifier::external_body]
pub(crate) fn duration_at_most(a: &Duration, b: &Duration) -> (at_most: bool)
    ensures
        at_most == (duration_nanos(*a) <= duration_nanos(*b)),
        at_most && duration_nanos(*b) <= duration_nanos(*a) ==> *a == *b,
{
    a <= b
}

/// Gives `Duration::ZERO`, the duration of no length.
#[verifier::external_body]
pub(crate) fn duration_zero() -> (zero: Duration)
    ensures
        duration_nanos(zero) == 0,
{
    Duration::ZERO
}

/// Calls `Duration::from_secs`: a duration of `secs` whole seconds.
#[verifier::external_body]
pub(crate) fn duration_from_secs(secs: u64) -> (d: Duration)
    ensures
        duration_nanos(d) == secs * 1_000_000_000,
{
    Duration::from_secs(secs)
}

/// Calls `Duration::from_nanos`: a duration of `nanos` nanoseconds.
#[verifier::external_body]
pub(crate) fn duration_from_nanos(nanos: u64) -> (d: Duration)
    ensures
        duration_nanos(d) == nanos,
{
    Duration::from_nanos(nanos)
}

/// Calls `later.saturating_duration_since(earlier)`, the time from `earlier`
/// to `later`, or zero when `earlier` is the later one.
#[verifier::external_body]
pub(crate) fn saturating_duration_since(later: &Instant, earlier: &Instant) -> (d: Duration)
    ensures
        d == instant_duration_since(*later, *earlier),
{
    later.saturating_duration_since(*earlier)
}

} // verus!
