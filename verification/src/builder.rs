//! The builder of a detector: settings one by one, checked when the detector
//! is built.

use crate::clock::{Clock, DefaultClock};
use crate::config::Config;
use crate::detector::{DetectorState, FailureDetector};
use crate::error::Error;
use std::time::Duration;
use vstd::prelude::*;

verus! {

/// [`FailureDetector`] builder.
pub struct Builder<C: Clock> {
    config: Config,
    clock: C,
}

impl Builder<DefaultClock> {
    /// A builder with the default settings and the default clock.
    pub fn new() -> (builder: Self)
        ensures
            builder.config().is_default(),
            builder.config().rejection() is None,
    {
        Builder { config: Config::default(), clock: DefaultClock }
    }
}

impl Default for Builder<DefaultClock> {
    fn default() -> (builder: Self)
        ensures
            builder.config().is_default(),
            builder.config().rejection() is None,
    {
        Self::new()
    }
}

impl<C: Clock> Builder<C> {
    /// The settings so far.
    pub closed spec fn config(&self) -> Config {
        self.config
    }

    /// The clock that the detector will read.
    pub closed spec fn clock_of(&self) -> C {
        self.clock
    }

    /// Threshold for considering the monitored resource unavailable, as the
    /// bits of a double.
    ///
    /// A low threshold is prone to generate many wrong suspicions but ensures a
    /// quick detection in the event of a real crash. Conversely, a high
    /// threshold generates fewer mistakes but needs more time to detect actual
    /// crashes.
    ///
    /// It has to be a number above zero: zero, a negative number and a NaN
    /// are turned down when the detector is built.
    ///
    /// Default: the bits of 8.0
    pub fn threshold(self, threshold_bits: u64) -> (builder: Self)
        ensures
            builder.config() == (Config { threshold_bits, ..self.config() }),
            builder.clock_of() == self.clock_of(),
    {
        let mut builder = self;
        builder.config.threshold_bits = threshold_bits;
        builder
    }

    /// Number of samples to use for calculation of mean and standard deviation
    /// of inter-arrival times.
    ///
    /// Default: 100
    pub fn max_sample_size(self, max_sample_size: usize) -> (builder: Self)
        ensures
            builder.config() == (Config { max_sample_size, ..self.config() }),
            builder.clock_of() == self.clock_of(),
    {
        let mut builder = self;
        builder.config.max_sample_size = max_sample_size;
        builder
    }

    /// Minimum standard deviation to use for the normal distribution used when
    /// calculating phi. Too low standard deviation might result in too much
    /// sensitivity for sudden, but normal, deviations in heartbeat inter
    /// arrival times.
    ///
    /// Default: 100ms
    pub fn min_std_deviation(self, min_std_deviation: Duration) -> (builder: Self)
        ensures
            builder.config() == (Config { min_std_deviation, ..self.config() }),
            builder.clock_of() == self.clock_of(),
    {
        let mut builder = self;
        builder.config.min_std_deviation = min_std_deviation;
        builder
    }

    /// Duration corresponding to number of potentially lost/delayed heartbeats
    /// that will be accepted before considering it to be an anomaly. This
    /// margin is important to be able to survive sudden, occasional, pauses in
    /// heartbeat arrivals, due to for example garbage collect or network
    /// drop.
    ///
    /// Default: 3s
    pub fn acceptable_heartbeat_pause(self, acceptable_heartbeat_pause: Duration) -> (builder: Self)
        ensures
            builder.config() == (Config { acceptable_heartbeat_pause, ..self.config() }),
            builder.clock_of() == self.clock_of(),
    {
        let mut builder = self;
        builder.config.acceptable_heartbeat_pause = acceptable_heartbeat_pause;
        builder
    }

    /// Bootstrap the stats with heartbeats that corresponds to this
    /// duration, with a rather high standard deviation (since environment
    /// is unknown in the beginning).
    ///
    /// Default: 1s
    pub fn first_heartbeat_estimate(self, first_heartbeat_estimate: Duration) -> (builder: Self)
        ensures
            builder.config() == (Config { first_heartbeat_estimate, ..self.config() }),
            builder.clock_of() == self.clock_of(),
    {
        let mut builder = self;
        builder.config.first_heartbeat_estimate = first_heartbeat_estimate;
        builder
    }

    /// Provide an alternative implementation of [`Clock`]. The settings stay.
    ///
    /// Default: [`DefaultClock`]
    pub fn clock<T: Clock>(self, clock: T) -> (builder: Builder<T>)
        ensures
            builder.config() == self.config(),
            builder.clock_of() == clock,
    {
        Builder { config: self.config, clock }
    }

    /// Builds a detector that no heartbeat has reached yet.
    ///
    /// Returns an [`Error`] if some configuration parameters are incorrect:
    /// the first that [`Config::rejection`] finds.
    pub fn build(self) -> (built: Result<FailureDetector<C>, Error>)
        ensures
            match built {
                Ok(detector) => {
                    &&& self.config().rejection() is None
                    &&& detector.state().is_initial(&self.config())
                    &&& detector.clock() == self.clock_of()
                },
                Err(error) => self.config().rejection() == Some(error),
            },
    {
        match self.config.validate() {
            Err(error) => Err(error),
            Ok(()) => {
                let state = DetectorState::new(&self.config);
                Ok(FailureDetector::new(state, self.clock))
            },
        }
    }
}

} // verus!
