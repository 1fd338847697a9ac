//! Histograms over fixed bucket bounds.

use crate::error::LoggingError;
use vstd::prelude::*;
use vstd::string::*;

verus! {

/// Each bound is above the one before it.
pub open spec fn ascending(bounds: Seq<u64>) -> bool {
    forall|i: int, j: int| 0 <= i < j < bounds.len() ==> bounds[i] < bounds[j]
}

/// The bucket that takes `value`: the lowest whose bound is not below the value. When
/// every bound is below it, this is the number of bounds, which stands for the bucket
/// without a bound.
pub open spec fn bucket_index(bounds: Seq<u64>, value: u64) -> int
    decreases bounds.len(),
{
    if bounds.len() == 0 {
        0
    } else if bounds[0] >= value {
        0
    } else {
        1 + bucket_index(bounds.skip(1), value)
    }
}

/// The sum of `counts`.
pub open spec fn total_of(counts: Seq<u64>) -> nat
    decreases counts.len(),
{
    if counts.len() == 0 {
        0
    } else {
        total_of(counts.drop_last()) + counts.last() as nat
    }
}

/// The number of observations in the first `upto` buckets.
pub open spec fn cumulative(counts: Seq<u64>, upto: int) -> nat {
    total_of(counts.take(upto))
}

/// The place where a scan from the front stops is the bucket that takes the value.
pub proof fn lemma_bucket_index(bounds: Seq<u64>, value: u64, i: int)
    requires
        0 <= i <= bounds.len(),
        forall|j: int| 0 <= j < i ==> bounds[j] < value,
        i == bounds.len() || bounds[i] >= value,
    ensures
        bucket_index(bounds, value) == i,
    decreases bounds.len(),
{
    if bounds.len() > 0 && i > 0 {
        let rest = bounds.skip(1);
        assert(bounds[0] < value);
        assert forall|j: int| 0 <= j < i - 1 implies rest[j] < value by {
            assert(rest[j] == bounds[j + 1]);
        }
        lemma_bucket_index(rest, value, i - 1);
    }
}

/// The bucket that takes a value is one of the buckets, the last one included.
pub proof fn lemma_bucket_index_range(bounds: Seq<u64>, value: u64)
    ensures
        0 <= bucket_index(bounds, value) <= bounds.len(),
    decreases bounds.len(),
{
    if bounds.len() > 0 && bounds[0] < value {
        lemma_bucket_index_range(bounds.skip(1), value);
    }
}

/// Changing one count changes the sum by as much.
pub proof fn lemma_total_update(counts: Seq<u64>, i: int, count: u64)
    requires
        0 <= i < counts.len(),
    ensures
        total_of(counts.update(i, count)) == total_of(counts) - counts[i] + count,
    decreases counts.len(),
{
    let changed = counts.update(i, count);
    if i == counts.len() - 1 {
        assert(changed.drop_last() =~= counts.drop_last());
    } else {
        assert(changed.drop_last() =~= counts.drop_last().update(i, count));
        lemma_total_update(counts.drop_last(), i, count);
    }
}

/// The cumulative counts never fall from one bound to the next, and the last of them is
/// the sum of all counts.
pub proof fn lemma_cumulative_monotonic(counts: Seq<u64>, i: int, j: int)
    requires
        0 <= i <= j <= counts.len(),
    ensures
        cumulative(counts, i) <= cumulative(counts, j),
        cumulative(counts, counts.len() as int) == total_of(counts),
    decreases j - i,
{
    assert(counts.take(counts.len() as int) =~= counts);
    if i < j {
        lemma_cumulative_monotonic(counts, i, j - 1);
        assert(counts.take(j).drop_last() =~= counts.take(j - 1));
    }
}

/// No count is above the sum of all counts.
pub proof fn lemma_count_below_total(counts: Seq<u64>, i: int)
    requires
        0 <= i < counts.len(),
    ensures
        counts[i] <= total_of(counts),
    decreases counts.len(),
{
    if i < counts.len() - 1 {
        lemma_count_below_total(counts.drop_last(), i);
    }
}

/// What a histogram holds.
pub struct HistogramView {
    pub bounds: Seq<u64>,
    pub counts: Seq<u64>,
    pub total: u64,
    pub sum: u64,
}

/// A histogram over `bounds` without observations.
pub open spec fn empty_histogram(bounds: Seq<u64>) -> HistogramView {
    HistogramView { bounds, counts: Seq::new(bounds.len() + 1, |i: int| 0u64), total: 0, sum: 0 }
}

/// The histogram after one more observation of `value`. A histogram that has counted as
/// far as it can count stays as it is.
pub open spec fn observed(h: HistogramView, value: u64) -> HistogramView {
    if h.total == u64::MAX {
        h
    } else {
        HistogramView {
            bounds: h.bounds,
            counts: h.counts.update(
                bucket_index(h.bounds, value),
                (h.counts[bucket_index(h.bounds, value)] + 1) as u64,
            ),
            total: (h.total + 1) as u64,
            sum: if h.sum + value > u64::MAX {
                u64::MAX
            } else {
                (h.sum + value) as u64
            },
        }
    }
}

/// A histogram: for each bound the number of observations that fell into its bucket,
/// and one more count for the observations above every bound.
pub struct Histogram {
    bounds: Vec<u64>,
    counts: Vec<u64>,
    total: u64,
    sum: u64,
}

impl View for Histogram {
    type V = HistogramView;

    closed spec fn view(&self) -> HistogramView {
        HistogramView {
            bounds: self.bounds@,
            counts: self.counts@,
            total: self.total,
            sum: self.sum,
        }
    }
}

impl Histogram {
    /// The view is made of the bounds, the counts, the total and the sum.
    pub proof fn lemma_view(self)
        ensures
            self@.bounds == self.bounds(),
            self@.counts == self.counts(),
            self@.total == self.total(),
            self@.sum == self.sum(),
    {
    }

    /// A histogram without bounds and without observations.
    pub fn empty() -> (r: Self)
        ensures
            r.wf(),
            r@ == empty_histogram(Seq::<u64>::empty()),
    {
        let mut counts: Vec<u64> = Vec::new();
        counts.push(0);
        assert(total_of(counts@.drop_last()) == 0);
        let r = Histogram { bounds: Vec::new(), counts, total: 0, sum: 0 };
        assert(r.counts@ =~= Seq::new(1, |i: int| 0u64));
        r
    }

    /// The bounds of the histogram, which is given up.
    pub fn into_bounds(self) -> (r: Vec<u64>)
        ensures
            r@ == self.bounds(),
    {
        self.bounds
    }

    /// A copy of the histogram.
    pub fn copy(&self) -> (r: Self)
        ensures
            r@ == self@,
            r.wf() == self.wf(),
    {
        Histogram {
            bounds: self.bounds.clone(),
            counts: self.counts.clone(),
            total: self.total,
            sum: self.sum,
        }
    }

    /// Counts one observation of `value`, unless the histogram has counted as far as it
    /// can count.
    pub fn observe_saturating(&mut self, value: u64)
        requires
            old(self).wf(),
        ensures
            final(self).wf(),
            final(self)@ == observed(old(self)@, value),
    {
        if self.total < u64::MAX {
            self.observe(value);
        }
    }

    /// The upper bounds of the buckets, ascending.
    pub closed spec fn bounds(&self) -> Seq<u64> {
        self.bounds@
    }

    /// The count of each bucket; the last is that of the bucket without a bound.
    pub closed spec fn counts(&self) -> Seq<u64> {
        self.counts@
    }

    /// The number of observations.
    pub closed spec fn total(&self) -> u64 {
        self.total
    }

    /// The sum of the observed values, as far as it fits.
    pub closed spec fn sum(&self) -> u64 {
        self.sum
    }

    /// What every method keeps true: the bounds ascend, there is one count more than
    /// there are bounds, and the counts add up to the number of observations.
    pub closed spec fn wf(&self) -> bool {
        &&& ascending(self.bounds@)
        &&& self.counts@.len() == self.bounds@.len() + 1
        &&& total_of(self.counts@) == self.total
    }

    /// The counts of a well-formed histogram add up to the number of observations.
    pub proof fn lemma_counts_add_up(self)
        requires
            self.wf(),
        ensures
            total_of(self.counts()) == self.total(),
            self.counts().len() == self.bounds().len() + 1,
            ascending(self.bounds()),
    {
    }

    /// An empty histogram over `bounds`, which must ascend.
    pub fn new(bounds: Vec<u64>) -> (r: Result<Self, LoggingError>)
        ensures
            r is Ok <==> ascending(bounds@) && bounds@.len() < usize::MAX,
            r matches Ok(h) ==> h.wf() && h@ == empty_histogram(bounds@) && h.bounds()
                == bounds@ && h.total() == 0 && h.sum() == 0 && h.counts() == Seq::new(
                bounds@.len() + 1,
                |i: int| 0u64,
            ),
            r matches Err(e) ==> e is MetricsError,
    {
        if bounds.len() == usize::MAX {
            return Err(
                LoggingError::MetricsError(String::from_str("Too many histogram bounds")),
            );
        }
        let mut i: usize = 1;
        while i < bounds.len()
            invariant
                1 <= i,
                forall|a: int, b: int| 0 <= a < b < i && b < bounds@.len() ==> bounds@[a] < bounds@[b],
            decreases bounds@.len() - i,
        {
            if bounds[i - 1] >= bounds[i] {
                return Err(
                    LoggingError::MetricsError(
                        String::from_str("Histogram bounds must ascend"),
                    ),
                );
            }
            proof {
                assert forall|a: int, b: int| 0 <= a < b < i + 1 && b < bounds@.len() implies bounds@[a]
                    < bounds@[b] by {
                    if b == i && a < i - 1 {
                        assert(bounds@[a] < bounds@[i - 1]);
                    }
                }
            }
            i += 1;
        }
        let mut counts: Vec<u64> = Vec::new();
        let mut k: usize = 0;
        while k < bounds.len() + 1
            invariant
                k <= bounds@.len() + 1,
                bounds@.len() < usize::MAX,
                counts@.len() == k,
                forall|j: int| 0 <= j < k ==> counts@[j] == 0,
                total_of(counts@) == 0,
            decreases bounds@.len() + 1 - k,
        {
            let ghost before = counts@;
            counts.push(0);
            assert(counts@.drop_last() =~= before);
            k += 1;
        }
        assert(counts@ =~= Seq::new(bounds@.len() + 1, |i: int| 0u64));
        Ok(Histogram { bounds, counts, total: 0, sum: 0 })
    }

    /// Counts one observation of `value` in the lowest bucket whose bound is not below
    /// it.
    pub fn observe(&mut self, value: u64)
        requires
            old(self).wf(),
            old(self).total() < u64::MAX,
        ensures
            final(self).wf(),
            final(self).bounds() == old(self).bounds(),
            final(self).counts().len() == old(self).counts().len(),
            final(self).counts().len() == final(self).bounds().len() + 1,
            final(self).total() == old(self).total() + 1,
            final(self).counts() == old(self).counts().update(
                bucket_index(old(self).bounds(), value),
                (old(self).counts()[bucket_index(old(self).bounds(), value)] + 1) as u64,
            ),
            final(self).sum() == if old(self).sum() + value > u64::MAX {
                u64::MAX
            } else {
                (old(self).sum() + value) as u64
            },
    {
        let mut i: usize = 0;
        while i < self.bounds.len() && self.bounds[i] < value
            invariant
                i <= self.bounds@.len(),
                forall|j: int| 0 <= j < i ==> self.bounds@[j] < value,
                *self == *old(self),
            decreases self.bounds@.len() - i,
        {
            i += 1;
        }
        proof {
            lemma_bucket_index(self.bounds@, value, i as int);
            lemma_count_below_total(self.counts@, i as int);
            lemma_total_update(self.counts@, i as int, (self.counts@[i as int] + 1) as u64);
        }
        let count = self.counts[i];
        self.counts[i] = count + 1;
        self.total = self.total + 1;
        self.sum = self.sum.saturating_add(value);
    }

    /// The number of observations.
    pub fn count(&self) -> (r: u64)
        ensures
            r == self.total(),
    {
        self.total
    }

    /// The sum of the observed values, as far as it fits.
    pub fn sum_value(&self) -> (r: u64)
        ensures
            r == self.sum(),
    {
        self.sum
    }

    /// The number of buckets, the one without a bound included.
    pub fn bucket_count(&self) -> (r: usize)
        requires
            self.wf(),
        ensures
            r == self.counts().len(),
            r == self.bounds().len() + 1,
    {
        self.counts.len()
    }

    /// The upper bound of bucket `i`, or nothing for the bucket without a bound.
    pub fn bound(&self, i: usize) -> (r: Option<u64>)
        requires
            self.wf(),
            i < self.counts().len(),
        ensures
            r == if i < self.bounds().len() {
                Some(self.bounds()[i as int])
            } else {
                None
            },
    {
        if i < self.bounds.len() {
            Some(self.bounds[i])
        } else {
            None
        }
    }

    /// The number of observations in bucket `i` alone.
    pub fn bucket(&self, i: usize) -> (r: u64)
        requires
            i < self.counts().len(),
        ensures
            r == self.counts()[i as int],
    {
        self.counts[i]
    }

    /// For each bucket the number of observations in it and in every bucket before it.
    /// The numbers never fall, and the last is the number of all observations.
    pub fn cumulative_counts(&self) -> (r: Vec<u64>)
        requires
            self.wf(),
        ensures
            r@.len() == self.counts().len(),
            forall|k: int| 0 <= k < r@.len() ==> r@[k] == cumulative(self.counts(), k + 1),
            forall|a: int, b: int| 0 <= a <= b < r@.len() ==> r@[a] <= r@[b],
            r@[r@.len() - 1] == self.total(),
    {
        let mut out: Vec<u64> = Vec::new();
        let mut running: u64 = 0;
        let mut k: usize = 0;
        assert(self.counts@.take(0) =~= Seq::<u64>::empty());
        while k < self.counts.len()
            invariant
                k <= self.counts@.len(),
                self.wf(),
                out@.len() == k,
                running == cumulative(self.counts@, k as int),
                forall|j: int| 0 <= j < k ==> out@[j] == cumulative(self.counts@, j + 1),
            decreases self.counts@.len() - k,
        {
            proof {
                lemma_cumulative_monotonic(self.counts@, k + 1, self.counts@.len() as int);
                assert(self.counts@.take(k + 1).drop_last() =~= self.counts@.take(k as int));
            }
            running = running + self.counts[k];
            out.push(running);
            k += 1;
        }
        proof {
            assert forall|a: int, b: int| 0 <= a <= b < out@.len() implies out@[a]
                <= out@[b] by {
                lemma_cumulative_monotonic(self.counts@, a + 1, b + 1);
            }
            lemma_cumulative_monotonic(self.counts@, 0, self.counts@.len() as int);
        }
        out
    }
}

} // verus!
