//! What the library takes from `std::time`: durations as counts of
//! nanoseconds, and instants of the monotonic clock.

use std::time::{Duration, Instant};
use vstd::prelude::*;

verus! {

/// Nanoseconds in a millisecond.
pub const NANOS_PER_MS: u128 = 1_000_000;

/// `std::time::Instant`, a reading of the monotonic clock. Nothing is known
/// of what is inside one.
#[verifier::external_type_specification]
#[verifier::external_body]
pub struct ExInstant(std::time::Instant);

/// The whole length of a duration in nanoseconds, as `Duration::as_nanos`
/// reports it.
pub uninterp spec fn duration_nanos(duration: Duration) -> nat;

/// Whether `left` is later than `right`, as `>` on `Instant` reports it.
pub uninterp spec fn instant_is_later(left: Instant, right: Instant) -> bool;

/// The nanoseconds from `earlier` to `later`, as the duration that
/// `Instant::duration_since` returns holds them.
pub uninterp spec fn instant_gap_nanos(later: Instant, earlier: Instant) -> nat;

/// `Duration::from_millis` makes a duration of that many milliseconds: a
/// million times as many nanoseconds.
pub assume_specification[ Duration::from_millis ](millis: u64) -> (duration: Duration)
    ensures
        duration_nanos(duration) == millis as nat * NANOS_PER_MS as nat,
;

/// `Duration::as_millis` returns the whole milliseconds in a duration; what
/// is left of a millisecond is dropped.
pub assume_specification[ Duration::as_millis ](duration: &Duration) -> (millis: u128)
    ensures
        millis == duration_nanos(*duration) / NANOS_PER_MS as nat,
;

/// `Duration::is_zero` tells whether a duration spans no time at all.
pub assume_specification[ Duration::is_zero ](duration: &Duration) -> (zero: bool)
    ensures
        zero == (duration_nanos(*duration) == 0),
;

/// `Instant::now` reads the monotonic clock. Nothing is claimed of the
/// reading.
pub assume_specification[ Instant::now ]() -> Instant
;

/// `Instant::duration_since` returns the time from `earlier` to `later`. It
/// is called only where `earlier` is not the later of the two.
pub assume_specification[ Instant::duration_since ](later: &Instant, earlier: Instant) -> (gap:
    Duration)
    requires
        !instant_is_later(earlier, *later),
    ensures
        duration_nanos(gap) == instant_gap_nanos(*later, earlier),
;

/// `>` on `Instant`: whether `left` is later than `right`.
#[verifier::external_body]
pub(crate) fn instant_later(left: &Instant, right: &Instant) -> (later: bool)
    ensures
        later == instant_is_later(*left, *right),
{
    left.gt(right)
}

} // verus!
