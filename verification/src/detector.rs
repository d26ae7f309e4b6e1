//! The detector: what it remembers of the heartbeats, and how a heartbeat
//! changes that.
//!
//! Phi itself is a real number, computed from whole numbers: the time since
//! the last heartbeat, the two sums of the history and the number of its
//! samples, and the settings. The detector hands out those numbers, takes
//! back the verdict that phi led to, and decides by it what a heartbeat does
//! to the history.

use crate::buffer::{window_after, window_push};
use crate::builder::Builder;
use crate::clock::{Clock, DefaultClock};
use crate::config::{is_above_zero, Config};
use crate::history::{sample_of, sum_of, sum_of_squares, to_sample, HeartbeatHistory};
use crate::time::{duration_nanos, NANOS_PER_MS};
use crate::wide::Wide;
use vstd::prelude::*;

verus! {

/// All that phi at some moment is computed from.
#[derive(Clone, Copy, Debug)]
pub struct PhiInputs {
    /// The milliseconds since the last heartbeat.
    pub elapsed_ms: u128,
    /// The sum of the samples in the window, in quarters of a millisecond.
    pub interval_sum: Wide,
    /// The sum of the squares of the samples in the window.
    pub squared_interval_sum: Wide,
    /// The number of samples ever added. The mean is the sum divided by this
    /// number, not by the number of samples in the window.
    pub samples: usize,
    /// The acceptable heartbeat pause, in milliseconds.
    pub acceptable_heartbeat_pause_ms: u128,
    /// The least standard deviation, in milliseconds.
    pub min_std_deviation_ms: u128,
}

/// The two samples that a history starts from: a quarter below and a quarter
/// above the estimate of the first heartbeat interval.
pub open spec fn seeds(estimate_ms: nat) -> Seq<u128> {
    let mean = sample_of(estimate_ms);
    seq![(mean - mean / 4) as u128, (mean + mean / 4) as u128]
}

/// What a detector remembers: its settings in milliseconds, the history of
/// the heartbeat intervals, and the time of the last heartbeat.
pub struct DetectorState<C: Clock> {
    threshold_bits: u64,
    acceptable_heartbeat_pause: u128,
    min_std_deviation: u128,
    history: HeartbeatHistory,
    last_timestamp: Option<C::Timestamp>,
}

impl<C: Clock> DetectorState<C> {
    /// The invariant: the threshold is a number above zero; the history is
    /// well formed, and it has its two first samples, so that its mean and
    /// its variance are defined.
    pub closed spec fn wf(&self) -> bool {
        &&& is_above_zero(self.threshold_bits)
        &&& self.history.wf()
        &&& self.history.spec_len() >= 2
    }

    /// The bits of the threshold.
    pub closed spec fn spec_threshold_bits(&self) -> u64 {
        self.threshold_bits
    }

    /// The acceptable heartbeat pause, in milliseconds.
    pub closed spec fn acceptable_heartbeat_pause(&self) -> u128 {
        self.acceptable_heartbeat_pause
    }

    /// The least standard deviation, in milliseconds.
    pub closed spec fn min_std_deviation(&self) -> u128 {
        self.min_std_deviation
    }

    /// The history of the heartbeat intervals.
    pub closed spec fn history(&self) -> HeartbeatHistory {
        self.history
    }

    /// The time of the last heartbeat, if there was one.
    pub closed spec fn last_timestamp(&self) -> Option<C::Timestamp> {
        self.last_timestamp
    }

    /// Whether `other` has the settings of `self`.
    pub open spec fn same_settings(&self, other: &Self) -> bool {
        &&& other.threshold_bits() == self.threshold_bits()
        &&& other.acceptable_heartbeat_pause() == self.acceptable_heartbeat_pause()
        &&& other.min_std_deviation() == self.min_std_deviation()
        &&& other.history().capacity() == self.history().capacity()
    }

    /// Whether this is the state of a detector with the settings `config`
    /// that no heartbeat has reached yet: the settings in whole
    /// milliseconds, no last heartbeat, and a history that the two seeds
    /// were added to.
    pub open spec fn is_initial(&self, config: &Config) -> bool {
        &&& self.wf()
        &&& self.threshold_bits() == config.threshold_bits
        &&& self.acceptable_heartbeat_pause() == duration_nanos(config.acceptable_heartbeat_pause)
            / NANOS_PER_MS as nat
        &&& self.min_std_deviation() == duration_nanos(config.min_std_deviation)
            / NANOS_PER_MS as nat
        &&& self.last_timestamp() is None
        &&& self.history().capacity() == config.max_sample_size
        &&& self.history().spec_len() == 2
        &&& self.history()@ == window_after(
            config.max_sample_size as nat,
            seeds(duration_nanos(config.first_heartbeat_estimate) / NANOS_PER_MS as nat),
        )
    }

    /// The state of a detector with the settings `config` before its first
    /// heartbeat. The history starts from two samples, so that its mean is
    /// the estimate of the first interval and its standard deviation a
    /// quarter of that.
    pub(crate) fn new(config: &Config) -> (state: Self)
        requires
            config.rejection() is None,
        ensures
            state.is_initial(config),
    {
        let mean = to_sample(config.first_heartbeat_estimate.as_millis());
        let std_deviation = mean / 4;

        let acceptable_heartbeat_pause = config.acceptable_heartbeat_pause.as_millis();
        let min_std_deviation = config.min_std_deviation.as_millis();

        let mut history = HeartbeatHistory::new(config.max_sample_size);
        history.add(mean - std_deviation);
        history.add(mean + std_deviation);
        proof {
            let first = seq![(mean - std_deviation) as u128];
            let both = seeds(duration_nanos(config.first_heartbeat_estimate) / NANOS_PER_MS as nat);
            let slots = config.max_sample_size as nat;
            assert(first.drop_last() =~= Seq::<u128>::empty());
            assert(both.drop_last() =~= first);
            assert(window_after(slots, Seq::<u128>::empty()) =~= Seq::<u128>::empty());
            assert(window_after(slots, first) =~= window_push(
                slots,
                window_after(slots, first.drop_last()),
                first.last(),
            ));
        }

        DetectorState {
            threshold_bits: config.threshold_bits,
            acceptable_heartbeat_pause,
            min_std_deviation,
            history,
            last_timestamp: None,
        }
    }

    /// Whether `interval` is what a heartbeat at `timestamp` under the
    /// verdict `available` adds to the history, in milliseconds: after an
    /// earlier heartbeat and for an available resource, what the clock
    /// returned for the time since that heartbeat; else nothing.
    pub open spec fn measures(
        &self,
        timestamp: C::Timestamp,
        available: bool,
        interval: Option<u128>,
    ) -> bool {
        if self.last_timestamp() is Some && available {
            interval matches Some(millis) && call_ensures(
                C::elapsed_ms,
                (&self.last_timestamp().unwrap(), &timestamp),
                millis,
            )
        } else {
            interval is None
        }
    }

    /// Whether `after` is this state once a heartbeat at `timestamp` was
    /// recorded that adds `interval`, in milliseconds, to the history.
    pub open spec fn record_leads_to(
        &self,
        timestamp: C::Timestamp,
        interval: Option<u128>,
        after: &Self,
    ) -> bool {
        &&& self.same_settings(after)
        &&& after.last_timestamp() == Some(timestamp)
        &&& match interval {
            Some(millis) => {
                &&& after.history().spec_len() == self.history().spec_len() + 1
                &&& after.history()@ == window_push(
                    self.history().capacity() as nat,
                    self.history()@,
                    sample_of(millis as nat) as u128,
                )
            },
            None => after.history() == self.history(),
        }
    }

    /// Whether `inputs` are what phi is computed from in this state,
    /// `elapsed_ms` milliseconds after the last heartbeat.
    pub open spec fn inputs_after(&self, elapsed_ms: u128, inputs: PhiInputs) -> bool {
        &&& inputs.samples >= 2
        &&& inputs.elapsed_ms == elapsed_ms
        &&& inputs.interval_sum@ == sum_of(self.history()@)
        &&& inputs.squared_interval_sum@ == sum_of_squares(self.history()@)
        &&& inputs.samples == self.history().spec_len()
        &&& inputs.acceptable_heartbeat_pause_ms == self.acceptable_heartbeat_pause()
        &&& inputs.min_std_deviation_ms == self.min_std_deviation()
    }

    /// Whether `inputs` are what phi at `timestamp` is computed from:
    /// nothing before the first heartbeat; after it, the inputs for the
    /// time that the clock returned since the last one.
    pub open spec fn inputs_at(&self, timestamp: C::Timestamp, inputs: Option<PhiInputs>) -> bool {
        match self.last_timestamp() {
            None => inputs is None,
            Some(last_timestamp) => inputs matches Some(found) && call_ensures(
                C::elapsed_ms,
                (&last_timestamp, &timestamp),
                found.elapsed_ms,
            ) && self.inputs_after(found.elapsed_ms, found),
        }
    }

    /// The history of a detector is never empty: it has counted its two
    /// first samples at least.
    pub proof fn lemma_seeded(&self)
        requires
            self.wf(),
        ensures
            self.history().wf(),
            self.history().spec_len() >= 2,
    {
    }

    /// The threshold of a detector is a number above zero, all its life:
    /// zero, the phi of a detector before its first heartbeat, is below it.
    pub proof fn lemma_threshold_above_zero(&self)
        requires
            self.wf(),
        ensures
            is_above_zero(self.threshold_bits()),
    {
    }

    /// Before its first heartbeat a detector hands out no inputs, whatever
    /// the time: phi is zero then by convention.
    pub proof fn lemma_initial_state_has_no_inputs(
        &self,
        config: Config,
        timestamp: C::Timestamp,
        inputs: Option<PhiInputs>,
    )
        requires
            self.is_initial(&config),
            self.inputs_at(timestamp, inputs),
        ensures
            inputs is None,
    {
    }

    /// A heartbeat that finds the resource unavailable, or that is the
    /// first, leaves the history as it is; the time since the last heartbeat
    /// is counted from it all the same.
    pub proof fn lemma_unmeasured_heartbeat_keeps_history(
        &self,
        timestamp: C::Timestamp,
        available: bool,
        interval: Option<u128>,
        after: &Self,
    )
        requires
            !available || self.last_timestamp() is None,
            self.measures(timestamp, available, interval),
            self.record_leads_to(timestamp, interval, after),
        ensures
            after.history() == self.history(),
            after.last_timestamp() == Some(timestamp),
    {
    }

    /// The bits of the threshold: the resource counts as available while
    /// phi is below the double that they stand for.
    #[verifier::when_used_as_spec(spec_threshold_bits)]
    pub fn threshold_bits(&self) -> (bits: u64)
        ensures
            bits == self.spec_threshold_bits(),
    {
        self.threshold_bits
    }

    /// The number of samples ever added to the history. A heartbeat that
    /// adds a sample needs it to be below `usize::MAX`.
    pub fn samples(&self) -> (count: usize)
        ensures
            count == self.history().spec_len(),
    {
        self.history.len()
    }

    /// Records a heartbeat at `timestamp` that adds `interval`, in
    /// milliseconds, to the history, or nothing. In both cases `timestamp`
    /// is the last heartbeat now.
    pub fn record(&mut self, timestamp: C::Timestamp, interval: Option<u128>)
        requires
            old(self).wf(),
            interval is Some ==> old(self).history().spec_len() < usize::MAX,
        ensures
            final(self).wf(),
            old(self).record_leads_to(timestamp, interval, final(self)),
    {
        if let Some(millis) = interval {
            self.history.add(to_sample(millis));
        }
        self.last_timestamp = Some(timestamp);
    }

    /// Records a heartbeat at `timestamp`. `available` is the verdict on the
    /// resource at that moment, before this heartbeat counts. After an
    /// earlier heartbeat, and if the resource was available, the interval
    /// since then joins the history. The first heartbeat adds nothing, and
    /// neither does one that ends an outage: its interval is no measure of
    /// the usual one. In every case `timestamp` is the last heartbeat now.
    pub fn heartbeat(&mut self, timestamp: C::Timestamp, available: bool)
        requires
            old(self).wf(),
            old(self).last_timestamp() is Some && available ==> old(self).history().spec_len()
                < usize::MAX,
        ensures
            final(self).wf(),
            exists|interval: Option<u128>| #[trigger]
                old(self).measures(timestamp, available, interval) && old(self).record_leads_to(
                    timestamp,
                    interval,
                    final(self),
                ),
    {
        let interval = match &self.last_timestamp {
            Some(last_timestamp) => {
                if available {
                    Some(C::elapsed_ms(last_timestamp, &timestamp))
                } else {
                    None
                }
            },
            None => None,
        };
        assert(self.measures(timestamp, available, interval));
        self.record(timestamp, interval);
    }

    /// What phi is computed from, `elapsed_ms` milliseconds after the last
    /// heartbeat.
    pub fn phi_inputs(&self, elapsed_ms: u128) -> (inputs: PhiInputs)
        requires
            self.wf(),
        ensures
            self.inputs_after(elapsed_ms, inputs),
    {
        proof {
            self.history.lemma_wf();
        }
        PhiInputs {
            elapsed_ms,
            interval_sum: self.history.interval_sum(),
            squared_interval_sum: self.history.squared_interval_sum(),
            samples: self.history.len(),
            acceptable_heartbeat_pause_ms: self.acceptable_heartbeat_pause,
            min_std_deviation_ms: self.min_std_deviation,
        }
    }

    /// What phi at `timestamp` is computed from: nothing before the first
    /// heartbeat, when phi is zero by convention.
    pub fn phi_inputs_for_timestamp(&self, timestamp: &C::Timestamp) -> (inputs: Option<PhiInputs>)
        requires
            self.wf(),
        ensures
            self.inputs_at(*timestamp, inputs),
    {
        match &self.last_timestamp {
            None => None,
            Some(last_timestamp) => Some(self.phi_inputs(C::elapsed_ms(last_timestamp, timestamp))),
        }
    }
}

/// Implementation of 'The Phi Accrual Failure Detector' by Hayashibara et al.
///
/// The suspicion level of failure is given by a value called phi. It is
/// expressed on a scale that follows the intervals at which the heartbeats of
/// the watched resource have been arriving, and a threshold decides from
/// which phi on the resource counts as failed.
///
/// A detector holds a state and the clock that its timestamps come from. Who
/// holds the detector reads the clock, has phi computed from what the state
/// hands out for that reading, and reports the heartbeat with the verdict.
pub struct FailureDetector<C: Clock> {
    state: DetectorState<C>,
    clock: C,
}

impl FailureDetector<DefaultClock> {
    /// A builder with the default settings and the default clock.
    pub fn builder() -> (builder: Builder<DefaultClock>)
        ensures
            builder.config().is_default(),
            builder.config().rejection() is None,
    {
        Builder::new()
    }
}

impl Default for FailureDetector<DefaultClock> {
    /// A detector with the default settings, which keep every bound, that no
    /// heartbeat has reached yet.
    fn default() -> (detector: Self)
        ensures
            exists|config: Config| config.is_default() && #[trigger] detector.state().is_initial(&config),
    {
        let builder = Self::builder();
        let ghost config = builder.config();
        let built = builder.build();
        assert(built.unwrap().state().is_initial(&config));
        built.unwrap()
    }
}

impl<C: Clock> FailureDetector<C> {
    /// The invariant: the state is well formed.
    pub open spec fn wf(&self) -> bool {
        self.state().wf()
    }

    /// What the detector remembers.
    pub closed spec fn state(&self) -> DetectorState<C> {
        self.state
    }

    /// The clock of the detector.
    pub closed spec fn clock(&self) -> C {
        self.clock
    }

    /// A detector in the state `state` that reads `clock`.
    pub(crate) fn new(state: DetectorState<C>, clock: C) -> (detector: Self)
        ensures
            detector.state() == state,
            detector.clock() == clock,
    {
        FailureDetector { state, clock }
    }

    /// Reads the clock. The state stays as it is; the reading, and the clock
    /// after it, are what the clock's own `timestamp` makes of the clock.
    pub fn timestamp(&mut self) -> (now: C::Timestamp)
        ensures
            final(self).state() == old(self).state(),
            exists|clock: &mut C|
                {
                    &&& mut_ref_current(clock) == old(self).clock()
                    &&& mut_ref_future(clock) == final(self).clock()
                    &&& #[trigger] call_ensures(C::timestamp, (clock,), now)
                },
    {
        self.clock.timestamp()
    }

    /// What phi at `timestamp` is computed from: nothing before the first
    /// heartbeat, when phi is zero by convention.
    pub fn phi_inputs_for_timestamp(&self, timestamp: &C::Timestamp) -> (inputs: Option<PhiInputs>)
        requires
            self.wf(),
        ensures
            self.state().inputs_at(*timestamp, inputs),
    {
        self.state.phi_inputs_for_timestamp(timestamp)
    }

    /// Notifies the detector that a heartbeat arrived from the monitored
    /// resource at `timestamp`, when the verdict on the resource was
    /// `available`. This causes the detector to update its state, as
    /// [`DetectorState::heartbeat`] does. The clock stays as it is.
    pub fn heartbeat(&mut self, timestamp: C::Timestamp, available: bool)
        requires
            old(self).wf(),
            old(self).state().last_timestamp() is Some && available ==> old(
                self,
            ).state().history().spec_len() < usize::MAX,
        ensures
            final(self).wf(),
            final(self).clock() == old(self).clock(),
            exists|interval: Option<u128>| #[trigger]
                old(self).state().measures(timestamp, available, interval) && old(
                    self,
                ).state().record_leads_to(timestamp, interval, &final(self).state()),
    {
        self.state.heartbeat(timestamp, available);
    }

    /// The bits of the threshold: the resource counts as available while
    /// phi is below the double that they stand for.
    pub fn threshold_bits(&self) -> (bits: u64)
        ensures
            bits == self.state().threshold_bits(),
    {
        self.state.threshold_bits()
    }

    /// The number of samples ever added to the history. A heartbeat that
    /// adds a sample needs it to be below `usize::MAX`.
    pub fn samples(&self) -> (count: usize)
        ensures
            count == self.state().history().spec_len(),
    {
        self.state.samples()
    }

    /// Takes the detector apart into its state and its clock.
    pub fn into_parts(self) -> (parts: (DetectorState<C>, C))
        ensures
            parts.0 == self.state(),
            parts.1 == self.clock(),
    {
        (self.state, self.clock)
    }
}

} // verus!
