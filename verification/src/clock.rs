//! Clocks: where timestamps come from, and how far apart two of them are.

use crate::time::{
    duration_nanos, instant_gap_nanos, instant_is_later, instant_later, NANOS_PER_MS,
};
use std::time::{Duration, Instant};
use vstd::prelude::*;

verus! {

/// A source of timestamps. A timestamp is opaque: all that is done with two
/// of them is to ask for the time elapsed from one to the other.
///
/// Nothing is asked of a clock here. What a detector does with a clock is
/// stated over whatever the clock returned.
pub trait Clock {
    type Timestamp;

    /// Returns current time.
    fn timestamp(&mut self) -> Self::Timestamp;

    /// Returns time elapsed between two timestamps: no time where `before`
    /// is the later of the two.
    fn elapsed(before: &Self::Timestamp, after: &Self::Timestamp) -> Duration;

    /// The whole milliseconds elapsed between two timestamps. Unless a clock
    /// has its own way, they are those of the duration that `elapsed`
    /// returns.
    fn elapsed_ms(before: &Self::Timestamp, after: &Self::Timestamp) -> (millis: u128)
        default_ensures
            exists|elapsed: Duration| #[trigger]
                call_ensures(Self::elapsed, (before, after), elapsed) && millis == duration_nanos(
                    elapsed,
                ) / NANOS_PER_MS as nat,
    {
        Self::elapsed(before, after).as_millis()
    }
}

/// The default clock implementation based on using [`std::time::Instant`].
pub struct DefaultClock;

impl Clock for DefaultClock {
    type Timestamp = Instant;

    fn timestamp(&mut self) -> Instant {
        Instant::now()
    }

    /// The time from `before` to `after`, and no time where `before` is the
    /// later of the two.
    fn elapsed(before: &Instant, after: &Instant) -> (elapsed: Duration)
        ensures
            duration_nanos(elapsed) == if instant_is_later(*before, *after) {
                0
            } else {
                instant_gap_nanos(*after, *before)
            },
    {
        if instant_later(before, after) {
            Duration::from_millis(0)
        } else {
            after.duration_since(*before)
        }
    }
}

/// A clock for tests. It starts at zero, and each reading moves it on by the
/// next of the intervals it was made with, in milliseconds; after the last
/// interval the first one follows.
pub struct FakeClock {
    intervals: Vec<u64>,
    cursor: usize,
    time: u64,
}

impl FakeClock {
    #[verifier::type_invariant]
    spec fn has_intervals(self) -> bool {
        self.intervals@.len() > 0
    }

    /// The intervals that the clock goes through.
    pub closed spec fn intervals(&self) -> Seq<u64> {
        self.intervals@
    }

    /// The position of the interval that the next reading adds.
    pub closed spec fn cursor(&self) -> usize {
        self.cursor
    }

    /// The time that the next reading returns, in milliseconds.
    pub closed spec fn time(&self) -> u64 {
        self.time
    }

    /// The interval that the next reading adds: the one under the cursor,
    /// which goes round the intervals.
    pub open spec fn due(&self) -> u64 {
        self.intervals()[(self.cursor() as int) % (self.intervals().len() as int)]
    }

    /// A clock at time zero. Its first reading adds the second of
    /// `intervals`: the first one is due after the last.
    pub fn new(intervals: Vec<u64>) -> (clock: Self)
        requires
            intervals@.len() > 0,
        ensures
            clock.intervals() == intervals@,
            clock.cursor() == 1,
            clock.time() == 0,
    {
        FakeClock { intervals, cursor: 1, time: 0 }
    }
}

impl Clock for FakeClock {
    type Timestamp = u64;

    /// Returns the clock's time, then moves the clock on by the interval
    /// under its cursor. Both the time and the cursor wrap around.
    fn timestamp(&mut self) -> (now: u64)
        ensures
            now == old(self).time(),
            final(self).intervals() == old(self).intervals(),
            final(self).intervals().len() > 0,
            final(self).cursor() == if old(self).cursor() == usize::MAX {
                0
            } else {
                old(self).cursor() + 1
            },
            final(self).time() == (old(self).time() + old(self).due()) % 0x1_0000_0000_0000_0000,
    {
        proof {
            use_type_invariant(&*self);
        }
        let now = self.time;
        let idx = self.cursor % self.intervals.len();
        self.cursor = self.cursor.wrapping_add(1);
        self.time = self.time.wrapping_add(self.intervals[idx]);
        now
    }

    /// As many milliseconds as `after` is above `before`, and no time where
    /// it is below.
    fn elapsed(before: &u64, after: &u64) -> (elapsed: Duration)
        ensures
            duration_nanos(elapsed) == if *before > *after {
                0
            } else {
                (*after - *before) as nat * NANOS_PER_MS as nat
            },
    {
        if *before > *after {
            Duration::from_millis(0)
        } else {
            Duration::from_millis(*after - *before)
        }
    }
}

} // verus!
