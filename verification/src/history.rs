//! The window of heartbeat intervals, with the sum of its samples and the
//! sum of their squares kept beside it.
//!
//! A sample is an interval in quarters of a millisecond. Intervals are whole
//! milliseconds, and the two samples that a detector starts from lie a
//! quarter of an interval below and above it: in quarters all of them are
//! whole numbers, and both sums are exact.

use crate::buffer::{window_push, CircleBuffer};
use crate::wide::{limb, Wide};
use vstd::prelude::*;

verus! {

/// The number of sample units in a millisecond.
pub const SAMPLES_PER_MS: u128 = 4;

/// The longest interval that is told apart, in milliseconds: `u64::MAX`
/// seconds and 999 milliseconds, the most that a `Duration` holds.
pub const MAX_INTERVAL_MS: u128 = 18_446_744_073_709_551_615_999;

/// The largest sample: five quarters of the longest interval.
pub const MAX_SAMPLE: u128 = 92_233_720_368_547_758_079_995;

/// The sample that stands for an interval of `millis` milliseconds: four
/// quarters for each millisecond, of at most `MAX_INTERVAL_MS` of them.
pub open spec fn sample_of(millis: nat) -> nat {
    if millis <= MAX_INTERVAL_MS {
        SAMPLES_PER_MS as nat * millis
    } else {
        SAMPLES_PER_MS as nat * MAX_INTERVAL_MS as nat
    }
}

/// The sample that stands for an interval of `millis` milliseconds. A
/// quarter more than it is still a sample in range.
pub fn to_sample(millis: u128) -> (sample: u128)
    ensures
        sample == sample_of(millis as nat),
        sample + sample / 4 <= MAX_SAMPLE,
{
    if millis <= MAX_INTERVAL_MS {
        SAMPLES_PER_MS * millis
    } else {
        SAMPLES_PER_MS * MAX_INTERVAL_MS
    }
}

/// The sum of `samples`.
pub open spec fn sum_of(samples: Seq<u128>) -> nat
    decreases samples.len(),
{
    if samples.len() == 0 {
        0
    } else {
        sum_of(samples.drop_last()) + samples.last() as nat
    }
}

/// The sum of the squares of `samples`.
pub open spec fn sum_of_squares(samples: Seq<u128>) -> nat
    decreases samples.len(),
{
    if samples.len() == 0 {
        0
    } else {
        sum_of_squares(samples.drop_last()) + samples.last() as nat * samples.last() as nat
    }
}

/// Whether every one of `samples` is at most `MAX_SAMPLE`.
pub open spec fn in_range(samples: Seq<u128>) -> bool {
    forall|i: int| 0 <= i < samples.len() ==> #[trigger] samples[i] <= MAX_SAMPLE
}

/// A sample more adds itself to the sum and its square to the sum of squares.
pub proof fn lemma_sums_push(samples: Seq<u128>, sample: u128)
    ensures
        sum_of(samples.push(sample)) == sum_of(samples) + sample,
        sum_of_squares(samples.push(sample)) == sum_of_squares(samples) + sample as nat
            * sample as nat,
{
    assert(samples.push(sample).drop_last() =~= samples);
}

/// The first sample is part of the sum, and its square of the sum of squares.
pub proof fn lemma_sums_drop_first(samples: Seq<u128>)
    requires
        samples.len() > 0,
    ensures
        sum_of(samples) == samples.first() + sum_of(samples.drop_first()),
        sum_of_squares(samples) == samples.first() as nat * samples.first() as nat
            + sum_of_squares(samples.drop_first()),
    decreases samples.len(),
{
    if samples.len() == 1 {
        assert(samples.drop_last() =~= Seq::<u128>::empty());
        assert(samples.drop_first() =~= Seq::<u128>::empty());
    } else {
        lemma_sums_drop_first(samples.drop_last());
        assert(samples.drop_first().drop_last() =~= samples.drop_last().drop_first());
    }
}

/// Both sums of samples in range stay far below two to the power of 256.
pub proof fn lemma_sums_bound(samples: Seq<u128>)
    requires
        in_range(samples),
    ensures
        sum_of(samples) <= samples.len() * MAX_SAMPLE as nat,
        sum_of_squares(samples) <= samples.len() * (MAX_SAMPLE as nat * MAX_SAMPLE as nat),
    decreases samples.len(),
{
    if samples.len() > 0 {
        let front = samples.drop_last();
        let last = samples.last() as nat;
        lemma_sums_bound(front);
        assert(samples.len() * MAX_SAMPLE as nat == front.len() * MAX_SAMPLE as nat
            + MAX_SAMPLE as nat) by (nonlinear_arith)
            requires
                samples.len() == front.len() + 1,
        ;
        assert(samples.len() * (MAX_SAMPLE as nat * MAX_SAMPLE as nat) == front.len() * (
        MAX_SAMPLE as nat * MAX_SAMPLE as nat) + MAX_SAMPLE as nat * MAX_SAMPLE as nat)
            by (nonlinear_arith)
            requires
                samples.len() == front.len() + 1,
        ;
        assert(last * last <= MAX_SAMPLE as nat * MAX_SAMPLE as nat) by (nonlinear_arith)
            requires
                last <= MAX_SAMPLE as nat,
        ;
    }
}

/// As many samples as a `usize` counts, and one more, leave both sums below
/// two to the power of 256.
proof fn lemma_room(count: nat)
    requires
        count <= usize::MAX,
    ensures
        (count + 1) * (MAX_SAMPLE as nat) < limb() * limb(),
        (count + 1) * ((MAX_SAMPLE as nat) * (MAX_SAMPLE as nat)) < limb() * limb(),
{
    let most: nat = MAX_SAMPLE as nat;
    assert((count + 1) * most <= (count + 1) * (most * most) && (count + 1) * (most * most)
        < limb() * limb()) by (nonlinear_arith)
        requires
            count < 0x1_0000_0000_0000_0000,
            most == 92_233_720_368_547_758_079_995,
            limb() == 0x1_0000_0000_0000_0000_0000_0000_0000_0000,
    ;
}

/// The statistics of the intervals between heartbeats, over the latest
/// samples up to a given number.
pub struct HeartbeatHistory {
    intervals: CircleBuffer<u128>,
    interval_sum: Wide,
    squared_interval_sum: Wide,
}

impl View for HeartbeatHistory {
    type V = Seq<u128>;

    /// The samples held, oldest first.
    closed spec fn view(&self) -> Seq<u128> {
        self.intervals@
    }
}

impl HeartbeatHistory {
    /// The invariant: the samples are in range, and the two sums are those
    /// of the samples held and of their squares.
    pub closed spec fn wf(&self) -> bool {
        &&& self.intervals.wf()
        &&& in_range(self.intervals@)
        &&& self.interval_sum@ == sum_of(self.intervals@)
        &&& self.squared_interval_sum@ == sum_of_squares(self.intervals@)
    }

    /// The number of samples that the window holds at most.
    pub closed spec fn capacity(&self) -> usize {
        self.intervals.capacity()
    }

    /// The number of samples added so far. It is not capped at the capacity.
    pub closed spec fn spec_len(&self) -> usize {
        self.intervals.spec_len()
    }

    /// The sum of the samples held.
    pub closed spec fn spec_interval_sum(&self) -> Wide {
        self.interval_sum
    }

    /// The sum of the squares of the samples held.
    pub closed spec fn spec_squared_interval_sum(&self) -> Wide {
        self.squared_interval_sum
    }

    /// What the invariant says of a history, in terms of its public model.
    pub proof fn lemma_wf(&self)
        requires
            self.wf(),
        ensures
            self.capacity() > 0,
            self@.len() == if self.spec_len() < self.capacity() {
                self.spec_len()
            } else {
                self.capacity()
            },
            in_range(self@),
            self.spec_interval_sum()@ == sum_of(self@),
            self.spec_squared_interval_sum()@ == sum_of_squares(self@),
    {
        self.intervals.lemma_window_len();
    }

    /// An empty history over a window of `max_sample_size` samples.
    pub fn new(max_sample_size: usize) -> (history: Self)
        requires
            max_sample_size > 0,
        ensures
            history.wf(),
            history.capacity() == max_sample_size,
            history.spec_len() == 0,
            history@ == Seq::<u128>::empty(),
    {
        HeartbeatHistory {
            intervals: CircleBuffer::new(max_sample_size),
            interval_sum: Wide::zero(),
            squared_interval_sum: Wide::zero(),
        }
    }

    /// Adds the sample `interval`. Where the window is full its oldest
    /// sample leaves, and both sums follow.
    pub fn add(&mut self, interval: u128)
        requires
            old(self).wf(),
            interval <= MAX_SAMPLE,
            old(self).spec_len() < usize::MAX,
        ensures
            final(self).wf(),
            final(self).capacity() == old(self).capacity(),
            final(self).spec_len() == old(self).spec_len() + 1,
            final(self)@ == window_push(old(self).capacity() as nat, old(self)@, interval),
    {
        proof {
            let held = self.intervals@;
            self.intervals.lemma_window_len();
            lemma_sums_bound(held);
            lemma_room(held.len());
            lemma_sums_push(held, interval);
            lemma_sums_bound(held.push(interval));
            if held.len() > 0 {
                lemma_sums_drop_first(held);
                lemma_sums_push(held.drop_first(), interval);
            }
        }
        self.interval_sum = self.interval_sum.plus(Wide::from_u128(interval));
        self.squared_interval_sum = self.squared_interval_sum.plus(Wide::square(interval));
        if let Some(oldest) = self.intervals.push(interval) {
            self.interval_sum = self.interval_sum.minus(Wide::from_u128(oldest));
            self.squared_interval_sum = self.squared_interval_sum.minus(Wide::square(oldest));
        }
    }

    /// The number of samples added so far.
    #[verifier::when_used_as_spec(spec_len)]
    pub fn len(&self) -> (n: usize)
        ensures
            n == self.spec_len(),
    {
        self.intervals.len()
    }

    /// The sum of the samples held.
    #[verifier::when_used_as_spec(spec_interval_sum)]
    pub fn interval_sum(&self) -> (sum: Wide)
        ensures
            sum == self.spec_interval_sum(),
            self.wf() ==> sum@ == sum_of(self@),
    {
        self.interval_sum
    }

    /// The sum of the squares of the samples held.
    #[verifier::when_used_as_spec(spec_squared_interval_sum)]
    pub fn squared_interval_sum(&self) -> (sum: Wide)
        ensures
            sum == self.spec_squared_interval_sum(),
            self.wf() ==> sum@ == sum_of_squares(self@),
    {
        self.squared_interval_sum
    }
}

} // verus!
