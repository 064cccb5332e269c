//! Fixed-size batch averaging of distance samples.
//!
//! The aggregator collects exactly `batch_size` integer-truncated distance
//! samples, then yields their arithmetic mean with floor division. A result
//! is only available once the batch is full, and taking it resets the batch
//! to empty for the next cycle.

use vstd::prelude::*;

verus! {

/// Sum of a sequence of samples, as an unbounded integer.
pub open spec fn sum_of(s: Seq<u64>) -> int
    decreases s.len(),
{
    if s.len() == 0 {
        0
    } else {
        sum_of(s.drop_last()) + s.last()
    }
}

/// The sum of a batch is non-negative and at most `len * u64::MAX`.
pub proof fn lemma_sum_of_bounds(s: Seq<u64>)
    ensures
        0 <= sum_of(s) <= s.len() * u64::MAX,
    decreases s.len(),
{
    if s.len() == 0 {
    } else {
        lemma_sum_of_bounds(s.drop_last());
        assert(s.len() * u64::MAX == (s.len() - 1) * u64::MAX + u64::MAX)
            by (nonlinear_arith);
    }
}

/// Appending one sample adds its value to the sum.
pub proof fn lemma_sum_of_push(s: Seq<u64>, v: u64)
    ensures
        sum_of(s.push(v)) == sum_of(s) + v,
{
    assert(s.push(v).drop_last() =~= s);
}

/// Collects a fixed batch of distance samples and averages it.
pub struct SampleAggregator {
    samples: Vec<u64>,
    batch_size: usize,
}

impl View for SampleAggregator {
    type V = Seq<u64>;

    /// The samples collected so far, oldest first.
    closed spec fn view(&self) -> Seq<u64> {
        self.samples@
    }
}

impl SampleAggregator {
    /// Number of samples a full batch holds.
    pub closed spec fn spec_batch_size(&self) -> int {
        self.batch_size as int
    }

    /// A well-formed aggregator never holds more than one batch.
    pub open spec fn wf(&self) -> bool {
        &&& self.spec_batch_size() >= 1
        &&& self@.len() <= self.spec_batch_size()
    }

    /// An empty aggregator for batches of `batch_size` samples.
    pub fn new(batch_size: usize) -> (agg: Self)
        requires
            batch_size >= 1,
        ensures
            agg.wf(),
            agg@ == Seq::<u64>::empty(),
            agg.spec_batch_size() == batch_size,
    {
        SampleAggregator { samples: Vec::new(), batch_size }
    }

    /// Number of samples a full batch holds.
    pub fn batch_size(&self) -> (n: usize)
        ensures
            n == self.spec_batch_size(),
    {
        self.batch_size
    }

    /// Number of samples collected so far.
    pub fn len(&self) -> (n: usize)
        ensures
            n == self@.len(),
    {
        self.samples.len()
    }

    /// Whether the batch is full, i.e. an average may be taken.
    pub fn is_full(&self) -> (full: bool)
        ensures
            full == (self@.len() == self.spec_batch_size()),
    {
        self.samples.len() == self.batch_size
    }

    /// Appends one sample to the current batch. Only a batch that is not yet
    /// full accepts a sample; earlier samples are kept unchanged.
    pub fn push(&mut self, sample: u64)
        requires
            old(self).wf(),
            old(self)@.len() < old(self).spec_batch_size(),
        ensures
            final(self).wf(),
            final(self)@ == old(self)@.push(sample),
            final(self).spec_batch_size() == old(self).spec_batch_size(),
    {
        self.samples.push(sample);
    }

    /// Takes the averaged reading of a full batch — the floor of
    /// `sum / batch_size` — and resets the batch to empty. A result is never
    /// produced before exactly `batch_size` samples were collected: only a
    /// full aggregator may be asked for it.
    pub fn take_average(&mut self) -> (avg: u64)
        requires
            old(self).wf(),
            old(self)@.len() == old(self).spec_batch_size(),
        ensures
            final(self).wf(),
            final(self)@ == Seq::<u64>::empty(),
            final(self).spec_batch_size() == old(self).spec_batch_size(),
            avg == sum_of(old(self)@) / old(self).spec_batch_size(),
    {
        let n = self.samples.len();
        let mut sum: u128 = 0;
        let mut i: usize = 0;
        while i < n
            invariant
                n == self@.len() == self.spec_batch_size(),
                i <= n,
                sum == sum_of(self@.take(i as int)),
            decreases n - i,
        {
            proof {
                lemma_sum_of_bounds(self@.take(i as int));
                vstd::arithmetic::mul::lemma_mul_inequality(
                    i as int,
                    usize::MAX as int,
                    u64::MAX as int,
                );
                lemma_sum_of_push(self@.take(i as int), self@[i as int]);
                assert(self@.take(i as int).push(self@[i as int]) =~= self@.take(i as int + 1));
            }
            sum = sum + self.samples[i] as u128;
            i = i + 1;
        }
        proof {
            assert(self@.take(n as int) =~= self@);
            lemma_sum_of_bounds(self@);
            vstd::arithmetic::div_mod::lemma_div_is_ordered(
                sum as int,
                n as int * (u64::MAX as int),
                n as int,
            );
            vstd::arithmetic::div_mod::lemma_div_multiples_vanish(u64::MAX as int, n as int);
        }
        let avg = (sum / (n as u128)) as u64;
        self.samples.clear();
        avg
    }
}

} // verus!
