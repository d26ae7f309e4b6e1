//! The settings of a detector, and the bounds they are held to.
//!
//! The threshold is a double. The library never computes with it: it carries
//! the 64 bits of the double, as `f64::to_bits` gives them, and reads from
//! them only whether the number is above zero.

use crate::error::Error;
use crate::time::{duration_nanos, NANOS_PER_MS};
use std::time::Duration;
use vstd::prelude::*;

verus! {

/// The bits of positive infinity. The positive numbers have the bits from 1
/// up to these; above them come the NaNs, and then, with the sign bit set,
/// the negative zero, the negative numbers and more NaNs.
pub const INFINITY_BITS: u64 = 0x7ff0_0000_0000_0000;

/// The bits of the default threshold, 8.0.
pub const DEFAULT_THRESHOLD_BITS: u64 = 0x4020_0000_0000_0000;

/// The default number of samples in the window.
pub const DEFAULT_MAX_SAMPLE_SIZE: usize = 100;

/// The default least standard deviation, in milliseconds.
pub const DEFAULT_MIN_STD_DEVIATION_MS: u64 = 100;

/// The default acceptable heartbeat pause, in milliseconds.
pub const DEFAULT_ACCEPTABLE_HEARTBEAT_PAUSE_MS: u64 = 3000;

/// The default estimate of the first heartbeat interval, in milliseconds.
pub const DEFAULT_FIRST_HEARTBEAT_ESTIMATE_MS: u64 = 1000;

/// Whether the double with these bits is a number above zero. Neither zero
/// is, and no NaN; positive infinity is.
pub open spec fn is_above_zero(bits: u64) -> bool {
    0 < bits <= INFINITY_BITS
}

/// Tells whether the double with these bits is a number above zero.
pub fn above_zero(bits: u64) -> (verdict: bool)
    ensures
        verdict == is_above_zero(bits),
{
    0 < bits && bits <= INFINITY_BITS
}

/// The settings of a detector.
#[derive(Clone, Copy, Debug)]
pub struct Config {
    /// The bits of the threshold, a number above zero: phi at or above it
    /// means unavailable.
    pub threshold_bits: u64,
    /// The number of samples that the window holds at most.
    pub max_sample_size: usize,
    /// The least standard deviation that phi is computed with.
    pub min_std_deviation: Duration,
    /// The pause between heartbeats that is no cause for suspicion yet.
    pub acceptable_heartbeat_pause: Duration,
    /// The interval that the first heartbeats are expected at.
    pub first_heartbeat_estimate: Duration,
}

impl Config {
    /// The first bound that the settings break, in the order threshold,
    /// window, least standard deviation, first estimate; none where they
    /// keep all four.
    pub open spec fn rejection(&self) -> Option<Error> {
        if !is_above_zero(self.threshold_bits) {
            Some(Error::Threshold)
        } else if self.max_sample_size == 0 {
            Some(Error::MaxSampleSize)
        } else if duration_nanos(self.min_std_deviation) == 0 {
            Some(Error::MinStdDeviation)
        } else if duration_nanos(self.first_heartbeat_estimate) == 0 {
            Some(Error::FirstHeartbeatEstimate)
        } else {
            None
        }
    }

    /// Whether these are the default settings, as far as a duration can be
    /// told from another: by its length.
    pub open spec fn is_default(&self) -> bool {
        &&& self.threshold_bits == DEFAULT_THRESHOLD_BITS
        &&& self.max_sample_size == DEFAULT_MAX_SAMPLE_SIZE
        &&& duration_nanos(self.min_std_deviation) == DEFAULT_MIN_STD_DEVIATION_MS as nat
            * NANOS_PER_MS as nat
        &&& duration_nanos(self.acceptable_heartbeat_pause)
            == DEFAULT_ACCEPTABLE_HEARTBEAT_PAUSE_MS as nat * NANOS_PER_MS as nat
        &&& duration_nanos(self.first_heartbeat_estimate)
            == DEFAULT_FIRST_HEARTBEAT_ESTIMATE_MS as nat * NANOS_PER_MS as nat
    }

    /// Checks the settings against their bounds.
    pub fn validate(&self) -> (checked: Result<(), Error>)
        ensures
            checked == match self.rejection() {
                Some(error) => Err::<(), Error>(error),
                None => Ok(()),
            },
    {
        if !above_zero(self.threshold_bits) {
            return Err(Error::Threshold);
        }
        if self.max_sample_size == 0 {
            return Err(Error::MaxSampleSize);
        }
        if self.min_std_deviation.is_zero() {
            return Err(Error::MinStdDeviation);
        }
        if self.first_heartbeat_estimate.is_zero() {
            return Err(Error::FirstHeartbeatEstimate);
        }
        Ok(())
    }
}

impl Default for Config {
    /// The default settings. They keep every bound.
    fn default() -> (config: Self)
        ensures
            config.is_default(),
            config.rejection() is None,
    {
        Config {
            threshold_bits: DEFAULT_THRESHOLD_BITS,
            max_sample_size: DEFAULT_MAX_SAMPLE_SIZE,
            min_std_deviation: Duration::from_millis(DEFAULT_MIN_STD_DEVIATION_MS),
            acceptable_heartbeat_pause: Duration::from_millis(
                DEFAULT_ACCEPTABLE_HEARTBEAT_PAUSE_MS,
            ),
            first_heartbeat_estimate: Duration::from_millis(DEFAULT_FIRST_HEARTBEAT_ESTIMATE_MS),
        }
    }
}

} // verus!
