use phi_accrual_failure_detector::clock::{Clock, DefaultClock, FakeClock};
use std::time::Duration;

/// A clock whose timestamps count nanoseconds.
struct Nanos;

impl Clock for Nanos {
    type Timestamp = u64;

    fn timestamp(&mut self) -> u64 {
        0
    }

    fn elapsed(before: &u64, after: &u64) -> Duration {
        Duration::from_nanos(after.saturating_sub(*before))
    }
}

#[test]
fn fake_clock_starts_at_zero_and_adds_the_second_interval_first() {
    let mut clock = FakeClock::new(vec![0, 1000, 100, 100]);
    assert_eq!(clock.timestamp(), 0);
    assert_eq!(clock.timestamp(), 1000);
    assert_eq!(clock.timestamp(), 1100);
    assert_eq!(clock.timestamp(), 1200);
}

#[test]
fn fake_clock_goes_round_its_intervals() {
    let mut clock = FakeClock::new(vec![5, 10, 20]);
    let readings: Vec<u64> = (0..8).map(|_| clock.timestamp()).collect();
    assert_eq!(readings, vec![0, 10, 30, 35, 45, 65, 70, 80]);
}

#[test]
fn fake_clock_of_one_interval_repeats_it() {
    let mut clock = FakeClock::new(vec![7]);
    assert_eq!(clock.timestamp(), 0);
    assert_eq!(clock.timestamp(), 7);
    assert_eq!(clock.timestamp(), 14);
}

#[test]
fn fake_clock_time_wraps_around() {
    let mut clock = FakeClock::new(vec![1, u64::MAX]);
    assert_eq!(clock.timestamp(), 0);
    assert_eq!(clock.timestamp(), u64::MAX);
    assert_eq!(clock.timestamp(), 0);
    assert_eq!(clock.timestamp(), u64::MAX);
}

#[test]
fn fake_clock_elapsed_is_the_difference_in_milliseconds() {
    assert_eq!(FakeClock::elapsed(&1000, &1100), Duration::from_millis(100));
    assert_eq!(FakeClock::elapsed(&0, &u64::MAX), Duration::from_millis(u64::MAX));
    assert_eq!(FakeClock::elapsed(&5, &5), Duration::ZERO);
    assert_eq!(FakeClock::elapsed_ms(&1000, &8200), 7200);
}

#[test]
fn fake_clock_elapsed_is_zero_when_before_is_later() {
    assert_eq!(FakeClock::elapsed(&1100, &1000), Duration::ZERO);
    assert_eq!(FakeClock::elapsed_ms(&u64::MAX, &0), 0);
}

#[test]
fn default_clock_elapsed_is_zero_when_before_is_later() {
    let mut clock = DefaultClock;
    let earlier = clock.timestamp();
    let mut later = clock.timestamp();
    while later <= earlier {
        later = clock.timestamp();
    }
    assert_eq!(DefaultClock::elapsed(&later, &earlier), Duration::ZERO);
    assert_eq!(DefaultClock::elapsed_ms(&later, &earlier), 0);
    assert_eq!(DefaultClock::elapsed(&earlier, &earlier), Duration::ZERO);
}

#[test]
fn default_clock_elapsed_is_the_time_between_two_readings() {
    let mut clock = DefaultClock;
    let earlier = clock.timestamp();
    let mut later = clock.timestamp();
    while later <= earlier {
        later = clock.timestamp();
    }
    let elapsed = DefaultClock::elapsed(&earlier, &later);
    assert!(elapsed > Duration::ZERO);
    assert_eq!(elapsed, later - earlier);
    assert_eq!(DefaultClock::elapsed_ms(&earlier, &later), elapsed.as_millis());
}

#[test]
fn elapsed_milliseconds_drop_what_is_left_of_a_millisecond() {
    assert_eq!(Nanos::elapsed_ms(&0, &999_999), 0);
    assert_eq!(Nanos::elapsed_ms(&0, &1_000_000), 1);
    assert_eq!(Nanos::elapsed_ms(&0, &2_999_999), 2);
}
