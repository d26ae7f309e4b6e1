use phi_accrual_failure_detector::history::{
    to_sample, HeartbeatHistory, MAX_INTERVAL_MS, MAX_SAMPLE, SAMPLES_PER_MS,
};
use phi_accrual_failure_detector::wide::Wide;

fn limbs(wide: Wide) -> (u128, u128) {
    (wide.high(), wide.low())
}

#[test]
fn empty_history_has_empty_sums() {
    let history = HeartbeatHistory::new(3);
    assert_eq!(history.len(), 0);
    assert_eq!(limbs(history.interval_sum()), (0, 0));
    assert_eq!(limbs(history.squared_interval_sum()), (0, 0));
}

#[test]
fn sums_follow_each_sample() {
    let mut history = HeartbeatHistory::new(3);
    history.add(4);
    assert_eq!(limbs(history.interval_sum()), (0, 4));
    assert_eq!(limbs(history.squared_interval_sum()), (0, 16));
    history.add(8);
    history.add(12);
    assert_eq!(history.len(), 3);
    assert_eq!(limbs(history.interval_sum()), (0, 24));
    assert_eq!(limbs(history.squared_interval_sum()), (0, 224));
}

#[test]
fn sample_that_leaves_the_window_leaves_both_sums() {
    let mut history = HeartbeatHistory::new(3);
    for sample in [4u128, 8, 12, 16] {
        history.add(sample);
    }
    assert_eq!(history.len(), 4);
    assert_eq!(limbs(history.interval_sum()), (0, 36));
    assert_eq!(limbs(history.squared_interval_sum()), (0, 464));
}

#[test]
fn count_of_samples_grows_past_the_window() {
    let mut history = HeartbeatHistory::new(2);
    for _ in 0..10 {
        history.add(1000);
    }
    assert_eq!(history.len(), 10);
    assert_eq!(limbs(history.interval_sum()), (0, 2000));
    assert_eq!(limbs(history.squared_interval_sum()), (0, 2_000_000));
}

#[test]
fn largest_samples_are_summed_without_loss() {
    let mut history = HeartbeatHistory::new(3);
    for _ in 0..5 {
        history.add(MAX_SAMPLE);
    }
    assert_eq!(limbs(history.interval_sum()), (0, 276701161105643274239985));
    assert_eq!(
        limbs(history.squared_interval_sum()),
        (74999999, 340282366920935696451763550999025811531)
    );
}

#[test]
fn sample_counts_quarters_of_a_millisecond() {
    assert_eq!(SAMPLES_PER_MS, 4);
    assert_eq!(to_sample(0), 0);
    assert_eq!(to_sample(1), 4);
    assert_eq!(to_sample(1000), 4000);
    assert_eq!(to_sample(MAX_INTERVAL_MS), 73786976294838206463996);
}

#[test]
fn sample_of_an_interval_beyond_the_longest_is_that_of_the_longest() {
    assert_eq!(MAX_INTERVAL_MS, u64::MAX as u128 * 1000 + 999);
    assert_eq!(MAX_SAMPLE, 5 * MAX_INTERVAL_MS);
    assert_eq!(to_sample(MAX_INTERVAL_MS + 1), 73786976294838206463996);
    assert_eq!(to_sample(u128::MAX), 73786976294838206463996);
}
