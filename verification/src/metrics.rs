//! The logger's own metrics: counters, latencies, and counts by name, with a summary
//! that can be written in the Prometheus text format.

use crate::clock::{random_below, random_index};
use crate::histogram::total_of;
use crate::record::{decimal_text, push_decimal};
use crate::string_map::{distinct_keys, has_key, lookup, StringMap};
use vstd::prelude::*;
use vstd::string::*;

verus! {

/// `dashmap::DashMap` is carried as it is; what a map from names to counts holds is
/// known through `held_counts`.
#[verifier::external_type_specification]
#[verifier::external_body]
#[verifier::reject_recursive_types(K)]
#[verifier::reject_recursive_types(V)]
#[verifier::reject_recursive_types(S)]
pub struct ExDashMap<K, V, S>(dashmap::DashMap<K, V, S>);

/// The count that a `DashMap` holds under each name.
pub uninterp spec fn held_counts(map: dashmap::DashMap<String, u64>) -> Map<Seq<char>, u64>;

/// The pairs of a list, each name as its text.
pub open spec fn pairs_view(pairs: Seq<(String, u64)>) -> Seq<(Seq<char>, u64)> {
    Seq::new(pairs.len(), |i: int| (pairs[i].0@, pairs[i].1))
}

/// The count under `name`, if the map holds one.
pub open spec fn count_of(counts: Map<Seq<char>, u64>, name: Seq<char>) -> Option<u64> {
    if counts.dom().contains(name) {
        Some(counts[name])
    } else {
        None
    }
}

/// `DashMap::new` gives a map that holds nothing.
#[verifier::external_body]
fn counts_new() -> (r: dashmap::DashMap<String, u64>)
    ensures
        held_counts(r) == (Map::<Seq<char>, u64>::empty()),
{
    dashmap::DashMap::new()
}

/// `DashMap::get` finds the count under a name, if the map holds one.
#[verifier::external_body]
fn counts_get(map: &dashmap::DashMap<String, u64>, name: &str) -> (r: Option<u64>)
    ensures
        r == count_of(held_counts(*map), name@),
{
    map.get(name).map(|entry| *entry.value())
}

/// `DashMap::insert` puts the count under the name, in place of the one that was there.
#[verifier::external_body]
fn counts_insert(map: &mut dashmap::DashMap<String, u64>, name: String, count: u64)
    ensures
        held_counts(*final(map)) == held_counts(*old(map)).insert(name@, count),
{
    map.insert(name, count);
}

/// `DashMap::clear` leaves a map that holds nothing.
#[verifier::external_body]
fn counts_clear(map: &mut dashmap::DashMap<String, u64>)
    ensures
        held_counts(*final(map)) == (Map::<Seq<char>, u64>::empty()),
{
    map.clear();
}

/// `DashMap::iter` walks every entry once, in an order that is the map's own: the list
/// holds each name of the map once, with its count, and nothing else.
#[verifier::external_body]
fn counts_entries(map: &dashmap::DashMap<String, u64>) -> (r: Vec<(String, u64)>)
    ensures
        distinct_keys(pairs_view(r@)),
        forall|name: Seq<char>| #[trigger]
            lookup(pairs_view(r@), name) == count_of(held_counts(*map), name),
{
    map.iter().map(|entry| (entry.key().clone(), *entry.value())).collect()
}

/// `sort_unstable` puts the numbers in ascending order and keeps each as often as it
/// was there.
#[verifier::external_body]
fn sort_values(values: &mut Vec<u64>)
    ensures
        ordered(final(values)@),
        final(values)@.to_multiset() == old(values)@.to_multiset(),
{
    values.sort_unstable();
}

/// No number is above the one that follows it.
pub open spec fn ordered(values: Seq<u64>) -> bool {
    forall|i: int, j: int| 0 <= i <= j < values.len() ==> values[i] <= values[j]
}

/// `sorted` holds the numbers of `values` in ascending order.
pub open spec fn sorted_from(sorted: Seq<u64>, values: Seq<u64>) -> bool {
    ordered(sorted) && sorted.to_multiset() == values.to_multiset()
}

/// One count more, stopping at the top of the range.
pub open spec fn bumped(count: u64, by: u64) -> u64 {
    if count + by > u64::MAX {
        u64::MAX
    } else {
        (count + by) as u64
    }
}

/// A count never falls when it is bumped.
pub proof fn lemma_bumped_monotonic(count: u64, by: u64)
    ensures
        bumped(count, by) >= count,
        by > 0 && count < u64::MAX ==> bumped(count, by) > count,
{
}

/// The most latencies that are kept for the percentiles.
pub const LATENCY_SAMPLES: usize = 10000;

/// Out of a hundred latencies, this many are kept.
pub const SAMPLE_PERCENT: u32 = 10;

/// The sum of no more than `n` numbers of 64 bits fits in 128 bits with room to spare.
proof fn lemma_total_bound(values: Seq<u64>)
    ensures
        total_of(values) <= values.len() * u64::MAX,
    decreases values.len(),
{
    if values.len() > 0 {
        lemma_total_bound(values.drop_last());
        assert(total_of(values.drop_last()) + u64::MAX <= values.len() * u64::MAX)
            by (nonlinear_arith)
            requires
                total_of(values.drop_last()) <= (values.len() - 1) * u64::MAX,
        ;
    }
}

/// The numbers that every logger keeps.
#[derive(Debug, Clone, Copy, PartialEq, Eq, Structural)]
pub struct MetricCounters {
    pub entries_logged: u64,
    pub entries_dropped: u64,
    pub bytes_logged: u64,
    pub flush_count: u64,
    pub error_count: u64,
    pub avg_log_latency_us: u64,
    pub p50_log_latency_us: u64,
    pub p99_log_latency_us: u64,
    pub max_log_latency_us: u64,
    pub buffer_utilization: u64,
    pub buffer_overflow_count: u64,
    pub transport_send_count: u64,
    pub transport_error_count: u64,
}

impl MetricCounters {
    /// Numbers that have counted nothing.
    pub open spec fn zero() -> MetricCounters {
        MetricCounters {
            entries_logged: 0,
            entries_dropped: 0,
            bytes_logged: 0,
            flush_count: 0,
            error_count: 0,
            avg_log_latency_us: 0,
            p50_log_latency_us: 0,
            p99_log_latency_us: 0,
            max_log_latency_us: 0,
            buffer_utilization: 0,
            buffer_overflow_count: 0,
            transport_send_count: 0,
            transport_error_count: 0,
        }
    }
}

/// The numbers `after` are the numbers `before` with the mean, the median and the 99th
/// percentile of `samples` worked out; they are `before` where there are no samples.
pub open spec fn worked_out(before: MetricCounters, samples: Seq<u64>, after: MetricCounters)
    -> bool {
    if samples.len() == 0 {
        after == before
    } else {
        let n = samples.len() as int;
        exists|sorted: Seq<u64>| #[trigger]
            sorted_from(sorted, samples) && sorted.len() == n && after == (MetricCounters {
                avg_log_latency_us: (total_of(samples) / (n as nat)) as u64,
                p99_log_latency_us: sorted[(n * 99) / 100],
                p50_log_latency_us: sorted[n / 2],
                ..before
            })
    }
}

/// The metrics of one logger.
pub struct LoggingMetrics {
    counters: MetricCounters,
    level_counts: dashmap::DashMap<String, u64>,
    custom_counters: dashmap::DashMap<String, u64>,
    custom_gauges: dashmap::DashMap<String, u64>,
    latency_histogram: Vec<u64>,
}

/// A copy of the metrics at one moment.
pub struct MetricsSummary {
    pub entries_logged: u64,
    pub entries_dropped: u64,
    pub bytes_logged: u64,
    pub flush_count: u64,
    pub error_count: u64,
    pub avg_log_latency_us: u64,
    pub p99_log_latency_us: u64,
    pub max_log_latency_us: u64,
    pub buffer_utilization: u64,
    pub buffer_overflow_count: u64,
    pub transport_send_count: u64,
    pub transport_error_count: u64,
    pub level_counts: StringMap<u64>,
    pub custom_counters: StringMap<u64>,
    pub custom_gauges: StringMap<u64>,
}

/// The list as a map that keeps its order.
fn collect_counts(pairs: Vec<(String, u64)>) -> (r: StringMap<u64>)
    requires
        distinct_keys(pairs_view(pairs@)),
    ensures
        r.wf(),
        r@ == pairs_view(pairs@),
{
    let mut out: StringMap<u64> = StringMap::new();
    let mut i: usize = 0;
    while i < pairs.len()
        invariant
            i <= pairs@.len(),
            distinct_keys(pairs_view(pairs@)),
            out.wf(),
            out@ == pairs_view(pairs@).take(i as int),
        decreases pairs@.len() - i,
    {
        let name = pairs[i].0.clone();
        let count = pairs[i].1;
        proof {
            let all = pairs_view(pairs@);
            if has_key(out@, name@) {
                let at = crate::string_map::key_index(out@, name@);
                assert(all[at].0 != all[i as int].0);
            }
            assert(all.take(i + 1) =~= all.take(i as int).push((name@, count)));
        }
        out.insert(name, count);
        i += 1;
    }
    assert(pairs_view(pairs@).take(pairs@.len() as int) =~= pairs_view(pairs@));
    out
}

impl LoggingMetrics {
    /// The count of records of each level.
    pub closed spec fn level_counts(&self) -> Map<Seq<char>, u64> {
        held_counts(self.level_counts)
    }

    /// The counters that callers have named.
    pub closed spec fn custom_counters(&self) -> Map<Seq<char>, u64> {
        held_counts(self.custom_counters)
    }

    /// The gauges that callers have named.
    pub closed spec fn custom_gauges(&self) -> Map<Seq<char>, u64> {
        held_counts(self.custom_gauges)
    }

    /// The latencies kept for the percentiles.
    pub closed spec fn samples(&self) -> Seq<u64> {
        self.latency_histogram@
    }

    /// What every method keeps true: no more latencies are kept than there is room for.
    pub closed spec fn wf(&self) -> bool {
        self.latency_histogram@.len() <= LATENCY_SAMPLES
    }

    /// The numbers that every logger keeps.
    pub closed spec fn counters(&self) -> MetricCounters {
        self.counters
    }

    /// The counts by name and the kept latencies are the same in both.
    pub open spec fn same_tables(&self, other: &LoggingMetrics) -> bool {
        &&& self.level_counts() == other.level_counts()
        &&& self.custom_counters() == other.custom_counters()
        &&& self.custom_gauges() == other.custom_gauges()
        &&& self.samples() == other.samples()
    }

    /// Metrics that have counted nothing.
    pub fn new() -> (r: Self)
        ensures
            r.wf(),
            r.counters() == MetricCounters::zero(),
            r.level_counts() == (Map::<Seq<char>, u64>::empty()),
            r.custom_counters() == (Map::<Seq<char>, u64>::empty()),
            r.custom_gauges() == (Map::<Seq<char>, u64>::empty()),
            r.samples() == Seq::<u64>::empty(),
    {
        LoggingMetrics {
            counters: MetricCounters {
                entries_logged: 0,
                entries_dropped: 0,
                bytes_logged: 0,
                flush_count: 0,
                error_count: 0,
                avg_log_latency_us: 0,
                p50_log_latency_us: 0,
                p99_log_latency_us: 0,
                max_log_latency_us: 0,
                buffer_utilization: 0,
                buffer_overflow_count: 0,
                transport_send_count: 0,
                transport_error_count: 0,
            },
            level_counts: counts_new(),
            custom_counters: counts_new(),
            custom_gauges: counts_new(),
            latency_histogram: Vec::new(),
        }
    }

    /// The numbers, as they stand.
    pub fn snapshot(&self) -> (r: MetricCounters)
        ensures
            r == self.counters(),
    {
        self.counters
    }

    pub fn increment_entries_logged(&mut self)
        ensures
            final(self).counters() == (MetricCounters { entries_logged: bumped(old(self).counters().entries_logged, 1), ..old(self).counters() }),
            final(self).same_tables(old(self)),
            final(self).wf() == old(self).wf(),
    {
        self.counters.entries_logged = self.counters.entries_logged.saturating_add(1);
    }

    pub fn increment_entries_dropped(&mut self)
        ensures
            final(self).counters() == (MetricCounters { entries_dropped: bumped(old(self).counters().entries_dropped, 1), ..old(self).counters() }),
            final(self).same_tables(old(self)),
            final(self).wf() == old(self).wf(),
    {
        self.counters.entries_dropped = self.counters.entries_dropped.saturating_add(1);
    }

    pub fn add_bytes_logged(&mut self, bytes: u64)
        ensures
            final(self).counters() == (MetricCounters { bytes_logged: bumped(old(self).counters().bytes_logged, bytes), ..old(self).counters() }),
            final(self).same_tables(old(self)),
            final(self).wf() == old(self).wf(),
    {
        self.counters.bytes_logged = self.counters.bytes_logged.saturating_add(bytes);
    }

    pub fn increment_flush_count(&mut self)
        ensures
            final(self).counters() == (MetricCounters { flush_count: bumped(old(self).counters().flush_count, 1), ..old(self).counters() }),
            final(self).same_tables(old(self)),
            final(self).wf() == old(self).wf(),
    {
        self.counters.flush_count = self.counters.flush_count.saturating_add(1);
    }

    pub fn increment_error_count(&mut self)
        ensures
            final(self).counters() == (MetricCounters { error_count: bumped(old(self).counters().error_count, 1), ..old(self).counters() }),
            final(self).same_tables(old(self)),
            final(self).wf() == old(self).wf(),
    {
        self.counters.error_count = self.counters.error_count.saturating_add(1);
    }

    pub fn set_buffer_utilization(&mut self, utilization_percent: u64)
        ensures
            final(self).counters() == (MetricCounters { buffer_utilization: utilization_percent, ..old(self).counters() }),
            final(self).same_tables(old(self)),
            final(self).wf() == old(self).wf(),
    {
        self.counters.buffer_utilization = utilization_percent;
    }

    pub fn increment_buffer_overflow(&mut self)
        ensures
            final(self).counters() == (MetricCounters { buffer_overflow_count: bumped(old(self).counters().buffer_overflow_count, 1), ..old(self).counters() }),
            final(self).same_tables(old(self)),
            final(self).wf() == old(self).wf(),
    {
        self.counters.buffer_overflow_count = self.counters.buffer_overflow_count.saturating_add(1);
    }

    pub fn increment_transport_send(&mut self)
        ensures
            final(self).counters() == (MetricCounters { transport_send_count: bumped(old(self).counters().transport_send_count, 1), ..old(self).counters() }),
            final(self).same_tables(old(self)),
            final(self).wf() == old(self).wf(),
    {
        self.counters.transport_send_count = self.counters.transport_send_count.saturating_add(1);
    }

    pub fn increment_transport_error(&mut self)
        ensures
            final(self).counters() == (MetricCounters { transport_error_count: bumped(old(self).counters().transport_error_count, 1), ..old(self).counters() }),
            final(self).same_tables(old(self)),
            final(self).wf() == old(self).wf(),
    {
        self.counters.transport_error_count = self.counters.transport_error_count.saturating_add(1);
    }

    /// Takes one latency into account when the draw `roll`, a number below a hundred,
    /// keeps it: the latency is added to the kept ones while there is room, and takes
    /// the place `slot` among them otherwise. The highest latency is updated in any
    /// case.
    pub fn record_latency_sample(&mut self, latency_us: u64, roll: u32, slot: usize)
        requires
            old(self).wf(),
            old(self).samples().len() >= LATENCY_SAMPLES ==> slot < old(self).samples().len(),
        ensures
            final(self).wf(),
            final(self).counters() == (MetricCounters {
                max_log_latency_us: if latency_us > old(self).counters().max_log_latency_us {
                    latency_us
                } else {
                    old(self).counters().max_log_latency_us
                },
                ..old(self).counters()
            }),
            final(self).samples() == if roll >= SAMPLE_PERCENT {
                old(self).samples()
            } else if old(self).samples().len() < LATENCY_SAMPLES {
                old(self).samples().push(latency_us)
            } else {
                old(self).samples().update(slot as int, latency_us)
            },
            final(self).level_counts() == old(self).level_counts(),
            final(self).custom_counters() == old(self).custom_counters(),
            final(self).custom_gauges() == old(self).custom_gauges(),
    {
        if latency_us > self.counters.max_log_latency_us {
            self.counters.max_log_latency_us = latency_us;
        }
        if roll < SAMPLE_PERCENT {
            if self.latency_histogram.len() < LATENCY_SAMPLES {
                self.latency_histogram.push(latency_us);
            } else {
                self.latency_histogram[slot] = latency_us;
            }
        }
    }

    /// Takes one latency into account. About one latency in ten is kept for the
    /// percentiles; once ten thousand are kept, a kept latency takes the place of one
    /// chosen at random.
    pub fn record_log_latency(&mut self, latency_us: u64)
        requires
            old(self).wf(),
        ensures
            final(self).wf(),
            final(self).counters() == (MetricCounters {
                max_log_latency_us: if latency_us > old(self).counters().max_log_latency_us {
                    latency_us
                } else {
                    old(self).counters().max_log_latency_us
                },
                ..old(self).counters()
            }),
            final(self).samples() == old(self).samples() || (old(self).samples().len()
                < LATENCY_SAMPLES && final(self).samples() == old(self).samples().push(
                latency_us,
            )) || (exists|slot: int|
                0 <= slot < old(self).samples().len() && final(self).samples() == old(self).samples().update(slot, latency_us)),
            final(self).level_counts() == old(self).level_counts(),
            final(self).custom_counters() == old(self).custom_counters(),
            final(self).custom_gauges() == old(self).custom_gauges(),
    {
        let roll = random_below(100);
        let slot = if self.latency_histogram.len() >= LATENCY_SAMPLES {
            random_index(self.latency_histogram.len())
        } else {
            0
        };
        self.record_latency_sample(latency_us, roll, slot);
    }

    /// Works out the mean, the median and the 99th percentile of the kept latencies.
    /// Nothing changes while no latency is kept.
    pub fn calculate_percentiles(&mut self)
        requires
            old(self).wf(),
        ensures
            final(self).wf(),
            final(self).same_tables(old(self)),
            old(self).samples().len() == 0 ==> final(self).counters() == old(self).counters(),
            old(self).samples().len() > 0 ==> {
                let n = old(self).samples().len() as int;
                exists|sorted: Seq<u64>| #[trigger]
                    sorted_from(sorted, old(self).samples()) && sorted.len() == n && final(self).counters() == (MetricCounters {
                        avg_log_latency_us: (total_of(old(self).samples()) / (n as nat)) as u64,
                        p99_log_latency_us: sorted[(n * 99) / 100],
                        p50_log_latency_us: sorted[n / 2],
                        ..old(self).counters()
                    })
            },
    {
        let n = self.latency_histogram.len();
        if n == 0 {
            return ;
        }
        let mut sorted = self.latency_histogram.clone();
        assert(sorted@ =~= self.latency_histogram@);
        sort_values(&mut sorted);
        proof {
            sorted@.to_multiset_ensures();
            self.latency_histogram@.to_multiset_ensures();
        }
        let p99 = sorted[(n * 99) / 100];
        let p50 = sorted[n / 2];
        let mut sum: u128 = 0;
        let mut i: usize = 0;
        assert(self.latency_histogram@.take(0) =~= Seq::<u64>::empty());
        while i < n
            invariant
                i <= n,
                n == self.latency_histogram@.len(),
                n <= LATENCY_SAMPLES,
                sum == total_of(self.latency_histogram@.take(i as int)),
                sum <= i * u64::MAX,
            decreases n - i,
        {
            proof {
                let now = self.latency_histogram@.take(i + 1);
                assert(now.drop_last() =~= self.latency_histogram@.take(i as int));
                lemma_total_bound(now);
                assert(i * u64::MAX + u64::MAX <= 10001 * u64::MAX) by (nonlinear_arith)
                    requires
                        i <= 10000,
                ;
            }
            sum = sum + self.latency_histogram[i] as u128;
            i += 1;
        }
        assert(self.latency_histogram@.take(n as int) =~= self.latency_histogram@);
        proof {
            lemma_total_bound(self.latency_histogram@);
            assert(sum as int / n as int <= u64::MAX) by (nonlinear_arith)
                requires
                    sum <= n * u64::MAX,
                    n > 0,
            ;
        }
        self.counters.avg_log_latency_us = (sum / (n as u128)) as u64;
        self.counters.p99_log_latency_us = p99;
        self.counters.p50_log_latency_us = p50;
        assert(sorted_from(sorted@, old(self).samples()));
    }

    /// Counts one record of the level `level`.
    pub fn increment_level_count(&mut self, level: &str)
        ensures
            final(self).level_counts() == old(self).level_counts().insert(
                level@,
                bumped(
                    match count_of(old(self).level_counts(), level@) {
                        Some(count) => count,
                        None => 0,
                    },
                    1,
                ),
            ),
            final(self).custom_counters() == old(self).custom_counters(),
            final(self).custom_gauges() == old(self).custom_gauges(),
            final(self).samples() == old(self).samples(),
            final(self).counters() == old(self).counters(),
    {
        let before = match counts_get(&self.level_counts, level) {
            Some(count) => count,
            None => 0,
        };
        counts_insert(&mut self.level_counts, String::from_str(level), before.saturating_add(1));
    }

    /// The number of records of the level `level` that were counted.
    pub fn get_level_count(&self, level: &str) -> (r: u64)
        ensures
            r == match count_of(self.level_counts(), level@) {
                Some(count) => count,
                None => 0,
            },
    {
        match counts_get(&self.level_counts, level) {
            Some(count) => count,
            None => 0,
        }
    }

    /// Adds one to the counter `name`.
    pub fn increment_counter(&mut self, name: &str)
        ensures
            final(self).custom_counters() == old(self).custom_counters().insert(
                name@,
                bumped(
                    match count_of(old(self).custom_counters(), name@) {
                        Some(count) => count,
                        None => 0,
                    },
                    1,
                ),
            ),
            final(self).level_counts() == old(self).level_counts(),
            final(self).custom_gauges() == old(self).custom_gauges(),
            final(self).samples() == old(self).samples(),
            final(self).counters() == old(self).counters(),
    {
        self.add_to_counter(name, 1);
    }

    /// Adds `value` to the counter `name`. A counter never falls: it stops at the top
    /// of its range.
    pub fn add_to_counter(&mut self, name: &str, value: u64)
        ensures
            final(self).custom_counters() == old(self).custom_counters().insert(
                name@,
                bumped(
                    match count_of(old(self).custom_counters(), name@) {
                        Some(count) => count,
                        None => 0,
                    },
                    value,
                ),
            ),
            final(self).level_counts() == old(self).level_counts(),
            final(self).custom_gauges() == old(self).custom_gauges(),
            final(self).samples() == old(self).samples(),
            final(self).counters() == old(self).counters(),
    {
        let before = match counts_get(&self.custom_counters, name) {
            Some(count) => count,
            None => 0,
        };
        counts_insert(
            &mut self.custom_counters,
            String::from_str(name),
            before.saturating_add(value),
        );
    }

    /// Sets the gauge `name` to `value`.
    pub fn set_gauge(&mut self, name: &str, value: u64)
        ensures
            final(self).custom_gauges() == old(self).custom_gauges().insert(name@, value),
            final(self).level_counts() == old(self).level_counts(),
            final(self).custom_counters() == old(self).custom_counters(),
            final(self).samples() == old(self).samples(),
            final(self).counters() == old(self).counters(),
    {
        counts_insert(&mut self.custom_gauges, String::from_str(name), value);
    }

    /// The counter `name`; zero where nothing was counted under the name.
    pub fn get_counter(&self, name: &str) -> (r: u64)
        ensures
            r == match count_of(self.custom_counters(), name@) {
                Some(count) => count,
                None => 0,
            },
    {
        match counts_get(&self.custom_counters, name) {
            Some(count) => count,
            None => 0,
        }
    }

    /// The gauge `name`; zero where the gauge was never set.
    pub fn get_gauge(&self, name: &str) -> (r: u64)
        ensures
            r == match count_of(self.custom_gauges(), name@) {
                Some(count) => count,
                None => 0,
            },
    {
        match counts_get(&self.custom_gauges, name) {
            Some(count) => count,
            None => 0,
        }
    }

    /// Works out the percentiles and copies the metrics. The counts by name come in the
    /// order in which the maps hand them out.
    pub fn get_summary(&mut self) -> (r: MetricsSummary)
        requires
            old(self).wf(),
        ensures
            final(self).wf(),
            final(self).same_tables(old(self)),
            worked_out(old(self).counters(), old(self).samples(), final(self).counters()),
            r.entries_logged == final(self).counters().entries_logged,
            r.entries_dropped == final(self).counters().entries_dropped,
            r.bytes_logged == final(self).counters().bytes_logged,
            r.flush_count == final(self).counters().flush_count,
            r.error_count == final(self).counters().error_count,
            r.avg_log_latency_us == final(self).counters().avg_log_latency_us,
            r.p99_log_latency_us == final(self).counters().p99_log_latency_us,
            r.max_log_latency_us == final(self).counters().max_log_latency_us,
            r.buffer_utilization == final(self).counters().buffer_utilization,
            r.buffer_overflow_count == final(self).counters().buffer_overflow_count,
            r.transport_send_count == final(self).counters().transport_send_count,
            r.transport_error_count == final(self).counters().transport_error_count,
            r.level_counts.wf() && r.custom_counters.wf() && r.custom_gauges.wf(),
            forall|name: Seq<char>| #[trigger]
                lookup(r.level_counts@, name) == count_of(old(self).level_counts(), name),
            forall|name: Seq<char>| #[trigger]
                lookup(r.custom_counters@, name) == count_of(old(self).custom_counters(), name),
            forall|name: Seq<char>| #[trigger]
                lookup(r.custom_gauges@, name) == count_of(old(self).custom_gauges(), name),
    {
        self.calculate_percentiles();
        let level_counts = collect_counts(counts_entries(&self.level_counts));
        let custom_counters = collect_counts(counts_entries(&self.custom_counters));
        let custom_gauges = collect_counts(counts_entries(&self.custom_gauges));
        MetricsSummary {
            entries_logged: self.counters.entries_logged,
            entries_dropped: self.counters.entries_dropped,
            bytes_logged: self.counters.bytes_logged,
            flush_count: self.counters.flush_count,
            error_count: self.counters.error_count,
            avg_log_latency_us: self.counters.avg_log_latency_us,
            p99_log_latency_us: self.counters.p99_log_latency_us,
            max_log_latency_us: self.counters.max_log_latency_us,
            buffer_utilization: self.counters.buffer_utilization,
            buffer_overflow_count: self.counters.buffer_overflow_count,
            transport_send_count: self.counters.transport_send_count,
            transport_error_count: self.counters.transport_error_count,
            level_counts,
            custom_counters,
            custom_gauges,
        }
    }

    /// Sets every metric back to nothing.
    pub fn reset_metrics(&mut self)
        ensures
            final(self).wf(),
            final(self).counters() == MetricCounters::zero(),
            final(self).level_counts() == (Map::<Seq<char>, u64>::empty()),
            final(self).custom_counters() == (Map::<Seq<char>, u64>::empty()),
            final(self).custom_gauges() == (Map::<Seq<char>, u64>::empty()),
            final(self).samples() == Seq::<u64>::empty(),
    {
        self.counters = MetricCounters {
            entries_logged: 0,
            entries_dropped: 0,
            bytes_logged: 0,
            flush_count: 0,
            error_count: 0,
            avg_log_latency_us: 0,
            p50_log_latency_us: 0,
            p99_log_latency_us: 0,
            max_log_latency_us: 0,
            buffer_utilization: 0,
            buffer_overflow_count: 0,
            transport_send_count: 0,
            transport_error_count: 0,
        };
        counts_clear(&mut self.level_counts);
        counts_clear(&mut self.custom_counters);
        counts_clear(&mut self.custom_gauges);
        self.latency_histogram.clear();
    }
}

/// One line of the Prometheus text: the name, a space, the value, a line feed.
pub open spec fn metric_line(name: Seq<char>, value: u64) -> Seq<char> {
    name + seq![' '] + decimal_text(value as nat) + seq!['\n']
}

/// One line for each entry: the name of the metric with the label `label` set to the
/// key of the entry, and the value of the entry.
pub open spec fn labelled_lines(
    metric: Seq<char>,
    label: Seq<char>,
    entries: Seq<(Seq<char>, u64)>,
) -> Seq<char>
    decreases entries.len(),
{
    if entries.len() == 0 {
        Seq::<char>::empty()
    } else {
        labelled_lines(metric, label, entries.drop_last()) + metric + seq!['{'] + label
            + "=\""@ + entries.last().0 + "\"} "@ + decimal_text(entries.last().1 as nat)
            + seq!['\n']
    }
}

fn push_metric(out: &mut String, name: &str, value: u64)
    ensures
        final(out)@ == old(out)@ + metric_line(name@, value),
{
    proof {
        reveal_strlit(" ");
        reveal_strlit("\n");
    }
    out.append(name);
    out.append(" ");
    push_decimal(out, value);
    out.append("\n");
    assert(out@ =~= old(out)@ + metric_line(name@, value));
}

fn push_labelled(out: &mut String, metric: &str, label: &str, entries: &StringMap<u64>)
    ensures
        final(out)@ == old(out)@ + labelled_lines(metric@, label@, entries@),
{
    proof {
        reveal_strlit("{");
        reveal_strlit("\n");
    }
    let n = entries.len();
    let mut i: usize = 0;
    assert(entries@.take(0) =~= Seq::<(Seq<char>, u64)>::empty());
    while i < n
        invariant
            i <= n,
            n == entries@.len(),
            "{"@ == seq!['{'],
            "\n"@ == seq!['\n'],
            out@ == old(out)@ + labelled_lines(metric@, label@, entries@.take(i as int)),
        decreases n - i,
    {
        let ghost before = out@;
        out.append(metric);
        out.append("{");
        out.append(label);
        out.append("=\"");
        out.append(entries.key_at(i));
        out.append("\"} ");
        push_decimal(out, *entries.value_at(i));
        out.append("\n");
        i += 1;
        proof {
            let now = entries@.take(i as int);
            assert(now.drop_last() =~= entries@.take(i - 1));
            assert(now.last() == entries@[i - 1]);
            assert(out@ =~= before + metric@ + seq!['{'] + label@ + "=\""@ + now.last().0
                + "\"} "@ + decimal_text(now.last().1 as nat) + seq!['\n']);
            assert(out@ =~= old(out)@ + labelled_lines(metric@, label@, now));
        }
    }
    assert(entries@.take(n as int) =~= entries@);
}

impl MetricsSummary {
    /// The twelve lines of the metrics that every logger has.
    pub open spec fn core_text(&self) -> Seq<char> {
        metric_line("logging_entries_total"@, self.entries_logged) + metric_line(
            "logging_entries_dropped_total"@,
            self.entries_dropped,
        ) + metric_line("logging_bytes_total"@, self.bytes_logged) + metric_line(
            "logging_flushes_total"@,
            self.flush_count,
        ) + metric_line("logging_errors_total"@, self.error_count) + metric_line(
            "logging_latency_avg_microseconds"@,
            self.avg_log_latency_us,
        ) + metric_line("logging_latency_p99_microseconds"@, self.p99_log_latency_us)
            + metric_line("logging_latency_max_microseconds"@, self.max_log_latency_us)
            + metric_line("logging_buffer_utilization_percent"@, self.buffer_utilization)
            + metric_line("logging_buffer_overflows_total"@, self.buffer_overflow_count)
            + metric_line("logging_transport_sends_total"@, self.transport_send_count)
            + metric_line("logging_transport_errors_total"@, self.transport_error_count)
    }

    /// The summary in the Prometheus text format: the twelve lines of the core metrics,
    /// then one line for each level, each named counter and each named gauge.
    pub open spec fn prometheus_text(&self) -> Seq<char> {
        self.core_text() + labelled_lines("logging_level_total"@, "level"@, self.level_counts@)
            + labelled_lines("logging_custom_counter"@, "name"@, self.custom_counters@)
            + labelled_lines("logging_custom_gauge"@, "name"@, self.custom_gauges@)
    }

    fn push_core(&self, out: &mut String)
        ensures
            final(out)@ == old(out)@ + self.core_text(),
    {
        push_metric(out, "logging_entries_total", self.entries_logged);
        push_metric(out, "logging_entries_dropped_total", self.entries_dropped);
        push_metric(out, "logging_bytes_total", self.bytes_logged);
        push_metric(out, "logging_flushes_total", self.flush_count);
        push_metric(out, "logging_errors_total", self.error_count);
        push_metric(out, "logging_latency_avg_microseconds", self.avg_log_latency_us);
        push_metric(out, "logging_latency_p99_microseconds", self.p99_log_latency_us);
        push_metric(out, "logging_latency_max_microseconds", self.max_log_latency_us);
        push_metric(out, "logging_buffer_utilization_percent", self.buffer_utilization);
        push_metric(out, "logging_buffer_overflows_total", self.buffer_overflow_count);
        push_metric(out, "logging_transport_sends_total", self.transport_send_count);
        push_metric(out, "logging_transport_errors_total", self.transport_error_count);
        assert(out@ =~= old(out)@ + self.core_text());
    }

    pub fn to_prometheus_format(&self) -> (r: String)
        ensures
            r@ == self.prometheus_text(),
    {
        let mut out = String::new();
        self.push_core(&mut out);
        push_labelled(&mut out, "logging_level_total", "level", &self.level_counts);
        push_labelled(&mut out, "logging_custom_counter", "name", &self.custom_counters);
        push_labelled(&mut out, "logging_custom_gauge", "name", &self.custom_gauges);
        assert(out@ =~= self.prometheus_text());
        out
    }
}

/// One line of a report: a label, a number, a unit.
pub open spec fn report_line(label: Seq<char>, value: u64, unit: Seq<char>) -> Seq<char> {
    label + decimal_text(value as nat) + unit + seq!['\n']
}

/// Writes the metrics of a logger as lines for a console.
pub struct MetricsReporter {
    metrics: LoggingMetrics,
}

impl MetricsReporter {
    /// The metrics that are reported.
    pub closed spec fn metrics(&self) -> LoggingMetrics {
        self.metrics
    }

    pub fn new(metrics: LoggingMetrics) -> (r: Self)
        ensures
            r.metrics() == metrics,
    {
        MetricsReporter { metrics }
    }

    /// The report of six numbers: a heading, a line for each number, a closing rule.
    pub open spec fn report_lines(
        entries_logged: u64,
        entries_dropped: u64,
        avg_log_latency_us: u64,
        p99_log_latency_us: u64,
        max_log_latency_us: u64,
        buffer_utilization: u64,
    ) -> Seq<char> {
        "=== Logging Metrics ===\n"@ + report_line(
            "Entries logged: "@,
            entries_logged,
            Seq::<char>::empty(),
        ) + report_line("Entries dropped: "@, entries_dropped, Seq::<char>::empty())
            + report_line("Avg latency: "@, avg_log_latency_us, "us"@) + report_line(
            "P99 latency: "@,
            p99_log_latency_us,
            "us"@,
        ) + report_line("Max latency: "@, max_log_latency_us, "us"@) + report_line(
            "Buffer utilization: "@,
            buffer_utilization,
            "%"@,
        ) + "======================\n"@
    }

    /// The report of a summary: a heading, six lines, a closing rule.
    pub open spec fn report_text(summary: MetricsSummary) -> Seq<char> {
        Self::report_lines(
            summary.entries_logged,
            summary.entries_dropped,
            summary.avg_log_latency_us,
            summary.p99_log_latency_us,
            summary.max_log_latency_us,
            summary.buffer_utilization,
        )
    }

    /// The report of the numbers of a logger.
    pub open spec fn report_of(counters: MetricCounters) -> Seq<char> {
        Self::report_lines(
            counters.entries_logged,
            counters.entries_dropped,
            counters.avg_log_latency_us,
            counters.p99_log_latency_us,
            counters.max_log_latency_us,
            counters.buffer_utilization,
        )
    }

    fn push_line(out: &mut String, label: &str, value: u64, unit: &str)
        ensures
            final(out)@ == old(out)@ + report_line(label@, value, unit@),
    {
        proof {
            reveal_strlit("\n");
        }
        out.append(label);
        push_decimal(out, value);
        out.append(unit);
        out.append("\n");
        assert(out@ =~= old(out)@ + report_line(label@, value, unit@));
    }

    /// The report of `summary`.
    pub fn render(summary: &MetricsSummary) -> (r: String)
        ensures
            r@ == Self::report_text(*summary),
    {
        proof {
            reveal_strlit("");
        }
        let mut out = String::from_str("=== Logging Metrics ===\n");
        Self::push_line(&mut out, "Entries logged: ", summary.entries_logged, "");
        Self::push_line(&mut out, "Entries dropped: ", summary.entries_dropped, "");
        Self::push_line(&mut out, "Avg latency: ", summary.avg_log_latency_us, "us");
        Self::push_line(&mut out, "P99 latency: ", summary.p99_log_latency_us, "us");
        Self::push_line(&mut out, "Max latency: ", summary.max_log_latency_us, "us");
        Self::push_line(&mut out, "Buffer utilization: ", summary.buffer_utilization, "%");
        out.append("======================\n");
        assert(""@ =~= Seq::<char>::empty());
        assert(out@ =~= Self::report_text(*summary));
        out
    }

    /// Works out the percentiles of the kept latencies and reports the numbers as they
    /// then stand. The counts by name and the kept latencies stay as they were.
    pub fn report(&mut self) -> (r: String)
        requires
            old(self).metrics().wf(),
        ensures
            final(self).metrics().wf(),
            final(self).metrics().same_tables(&old(self).metrics()),
            worked_out(
                old(self).metrics().counters(),
                old(self).metrics().samples(),
                final(self).metrics().counters(),
            ),
            r@ == Self::report_of(final(self).metrics().counters()),
    {
        let summary = self.metrics.get_summary();
        Self::render(&summary)
    }

    /// The metrics, to count on.
    pub fn metrics_mut(&mut self) -> (r: &mut LoggingMetrics)
        ensures
            *r == old(self).metrics(),
            final(self).metrics() == *final(r),
    {
        &mut self.metrics
    }
}

} // verus!
