//! The metrics collector: counters, gauges, histograms and timers under a name and a
//! list of labels, kept in a store of bounded size.

use crate::error::LoggingError;
use crate::histogram::{ascending, empty_histogram, observed, Histogram, HistogramView};
use crate::metrics::bumped;
use crate::record::{decimal_text, push_decimal};
use vstd::prelude::*;
use vstd::string::*;

verus! {

/// The settings of a collector.
#[derive(Debug, Clone, Copy, PartialEq, Eq, Structural)]
pub struct MetricsConfig {
    /// The most metrics that are kept.
    pub buffer_size: usize,
    pub flush_interval_millis: u64,
    /// A metric that was not recorded for this long is let go at the next flush.
    pub retention_time_secs: u64,
    pub high_precision: bool,
    pub max_concurrent: usize,
}

impl Default for MetricsConfig {
    fn default() -> (r: Self)
        ensures
            r == (MetricsConfig {
                buffer_size: 10000,
                flush_interval_millis: 100,
                retention_time_secs: 300,
                high_precision: true,
                max_concurrent: 100,
            }),
    {
        MetricsConfig {
            buffer_size: 10000,
            flush_interval_millis: 100,
            retention_time_secs: 300,
            high_precision: true,
            max_concurrent: 100,
        }
    }
}

/// The value of a metric.
pub enum MetricType {
    /// A count that only grows.
    Counter(u64),
    /// A level that moves freely.
    Gauge(i64),
    /// A distribution of values.
    Histogram(Histogram),
    /// A distribution of durations, in microseconds.
    Timer(Histogram),
}

/// What the value of a metric holds.
pub enum MetricValue {
    Counter(u64),
    Gauge(i64),
    Histogram(HistogramView),
    Timer(HistogramView),
}

impl View for MetricType {
    type V = MetricValue;

    open spec fn view(&self) -> MetricValue {
        match self {
            MetricType::Counter(c) => MetricValue::Counter(*c),
            MetricType::Gauge(g) => MetricValue::Gauge(*g),
            MetricType::Histogram(h) => MetricValue::Histogram(h@),
            MetricType::Timer(h) => MetricValue::Timer(h@),
        }
    }
}

impl MetricType {
    /// A histogram inside the value is well formed.
    pub open spec fn wf(&self) -> bool {
        match self {
            MetricType::Histogram(h) => h.wf(),
            MetricType::Timer(h) => h.wf(),
            _ => true,
        }
    }
}

/// One metric.
pub struct MetricEntry {
    pub name: String,
    pub value: MetricType,
    pub labels: Vec<(String, String)>,
    /// When the metric was recorded last, in nanoseconds since the Unix epoch.
    pub timestamp_nanos: u64,
}

/// The labels, each key and value as its text.
pub open spec fn labels_view(labels: Seq<(String, String)>) -> Seq<(Seq<char>, Seq<char>)> {
    Seq::new(labels.len(), |i: int| (labels[i].0@, labels[i].1@))
}

/// What identifies a metric: its name and its labels, in their order.
pub struct MetricKey {
    pub name: Seq<char>,
    pub labels: Seq<(Seq<char>, Seq<char>)>,
}

/// What one metric holds.
pub struct MetricView {
    pub key: MetricKey,
    pub value: MetricValue,
    pub timestamp_nanos: u64,
}

impl View for MetricEntry {
    type V = MetricView;

    open spec fn view(&self) -> MetricView {
        MetricView {
            key: MetricKey { name: self.name@, labels: labels_view(self.labels@) },
            value: self.value@,
            timestamp_nanos: self.timestamp_nanos,
        }
    }
}

/// What is recorded.
#[derive(Debug, Clone, Copy, PartialEq, Eq, Structural)]
pub enum Sample {
    /// This much more on a counter.
    Count(u64),
    /// The new level of a gauge.
    Level(i64),
    /// One value for a histogram.
    Observation(u64),
    /// One duration for a timer, in microseconds.
    Duration(u64),
}

/// The value of a metric after `sample` is recorded on it; `existing` is the value
/// before, if the metric was there. A sample of another kind than the value that was
/// there starts the metric afresh.
pub open spec fn applied(existing: Option<MetricValue>, sample: Sample, bounds: Seq<u64>)
    -> MetricValue {
    match sample {
        Sample::Count(delta) => match existing {
            Some(MetricValue::Counter(c)) => MetricValue::Counter(bumped(c, delta)),
            _ => MetricValue::Counter(delta),
        },
        Sample::Level(level) => MetricValue::Gauge(level),
        Sample::Observation(value) => match existing {
            Some(MetricValue::Histogram(h)) => MetricValue::Histogram(observed(h, value)),
            _ => MetricValue::Histogram(observed(empty_histogram(bounds), value)),
        },
        Sample::Duration(value) => match existing {
            Some(MetricValue::Timer(h)) => MetricValue::Timer(observed(h, value)),
            _ => MetricValue::Timer(observed(empty_histogram(bounds), value)),
        },
    }
}

/// The place of the first metric with the key `key`, or the number of metrics when none
/// has it.
pub open spec fn first_match(metrics: Seq<MetricView>, key: MetricKey) -> int
    decreases metrics.len(),
{
    if metrics.len() == 0 {
        0
    } else if metrics[0].key == key {
        0
    } else {
        1 + first_match(metrics.skip(1), key)
    }
}

/// The metrics after `sample` is recorded under `key` at the time `now`, in a store that
/// keeps at most `capacity` metrics: a metric that is there is updated in its place; a
/// new one goes to the end, and where the store is full the oldest metric leaves first.
pub open spec fn recorded(
    metrics: Seq<MetricView>,
    capacity: nat,
    bounds: Seq<u64>,
    key: MetricKey,
    sample: Sample,
    now: u64,
) -> Seq<MetricView> {
    let at = first_match(metrics, key);
    if at < metrics.len() {
        metrics.update(
            at,
            MetricView {
                key,
                value: applied(Some(metrics[at].value), sample, bounds),
                timestamp_nanos: now,
            },
        )
    } else {
        let fresh = MetricView { key, value: applied(None, sample, bounds), timestamp_nanos: now };
        if metrics.len() < capacity {
            metrics.push(fresh)
        } else {
            metrics.skip(1).push(fresh)
        }
    }
}

/// How often a metric had to leave, after a sample is recorded under `key`: once more
/// where the key is new and the store is full.
pub open spec fn overflow_after(
    metrics: Seq<MetricView>,
    capacity: nat,
    key: MetricKey,
    overflow: u64,
) -> u64 {
    if first_match(metrics, key) == metrics.len() && metrics.len() >= capacity {
        bumped(overflow, 1)
    } else {
        overflow
    }
}

/// Where a scan from the front stops is the place of the first metric with the key.
pub proof fn lemma_first_match(metrics: Seq<MetricView>, key: MetricKey, i: int)
    requires
        0 <= i <= metrics.len(),
        forall|j: int| 0 <= j < i ==> (#[trigger] metrics[j]).key != key,
        i == metrics.len() || metrics[i].key == key,
    ensures
        first_match(metrics, key) == i,
    decreases metrics.len(),
{
    if metrics.len() > 0 && i > 0 {
        let rest = metrics.skip(1);
        assert(metrics[0].key != key);
        assert forall|j: int| 0 <= j < i - 1 implies (#[trigger] rest[j]).key != key by {
            assert(rest[j] == metrics[j + 1]);
        }
        lemma_first_match(rest, key, i - 1);
    }
}

/// The metrics collector.
pub struct MetricsCollector {
    config: MetricsConfig,
    running: bool,
    metrics_buffer: Vec<MetricEntry>,
    bounds: Vec<u64>,
    overflow_count: u64,
}

impl View for MetricsCollector {
    type V = Seq<MetricView>;

    /// The metrics, oldest first.
    closed spec fn view(&self) -> Seq<MetricView> {
        Seq::new(self.metrics_buffer@.len(), |i: int| self.metrics_buffer@[i]@)
    }
}

impl MetricsCollector {
    /// The settings.
    pub closed spec fn config(&self) -> MetricsConfig {
        self.config
    }

    /// The bucket bounds of the histograms and timers.
    pub closed spec fn bounds(&self) -> Seq<u64> {
        self.bounds@
    }

    /// How often a metric had to leave to make room.
    pub closed spec fn overflow(&self) -> u64 {
        self.overflow_count
    }

    /// Whether the collector was started and not stopped since.
    pub closed spec fn running(&self) -> bool {
        self.running
    }

    /// What every method keeps true: the store holds no more metrics than it may, every
    /// histogram is well formed, and the bounds ascend.
    pub closed spec fn wf(&self) -> bool {
        &&& self.config.buffer_size >= 1
        &&& self.metrics_buffer@.len() <= self.config.buffer_size
        &&& ascending(self.bounds@)
        &&& self.bounds@.len() < usize::MAX
        &&& forall|i: int|
            0 <= i < self.metrics_buffer@.len() ==> (#[trigger] self.metrics_buffer@[i]).value.wf()
    }

    /// A collector with the usual settings and no bucket bounds.
    pub fn new() -> (r: Result<Self, LoggingError>)
        ensures
            r is Ok,
            r->Ok_0.wf(),
            r->Ok_0@ == Seq::<MetricView>::empty(),
            !r->Ok_0.running(),
            r->Ok_0.overflow() == 0,
            r->Ok_0.bounds() == Seq::<u64>::empty(),
    {
        let r = MetricsCollector {
            config: MetricsConfig::default(),
            running: false,
            metrics_buffer: Vec::new(),
            bounds: Vec::new(),
            overflow_count: 0,
        };
        assert(r@ =~= Seq::<MetricView>::empty());
        Ok(r)
    }

    /// A collector with the given settings and bucket bounds. The store must have room
    /// for a metric, and the bounds must ascend.
    pub fn with_config(config: MetricsConfig, bounds: Vec<u64>) -> (r: Result<Self, LoggingError>)
        ensures
            r is Ok <==> config.buffer_size >= 1 && ascending(bounds@) && bounds@.len()
                < usize::MAX,
            r matches Ok(c) ==> c.wf() && c@ == Seq::<MetricView>::empty() && !c.running()
                && c.overflow() == 0 && c.bounds() == bounds@ && c.config() == config,
            r matches Err(e) ==> e is ConfigError || e is MetricsError,
    {
        if config.buffer_size == 0 {
            return Err(
                LoggingError::ConfigError(String::from_str("Buffer size must be greater than 0")),
            );
        }
        let probe = match Histogram::new(bounds) {
            Ok(h) => h,
            Err(e) => {
                return Err(e);
            },
        };
        proof {
            probe.lemma_view();
        }
        let r = MetricsCollector {
            config,
            running: false,
            metrics_buffer: Vec::new(),
            bounds: probe.into_bounds(),
            overflow_count: 0,
        };
        assert(r@ =~= Seq::<MetricView>::empty());
        Ok(r)
    }

    /// Marks the collector as running.
    pub fn start(&mut self) -> (r: Result<(), LoggingError>)
        ensures
            r is Ok,
            final(self).running(),
            final(self)@ == old(self)@,
            final(self).wf() == old(self).wf(),
            final(self).overflow() == old(self).overflow(),
            final(self).bounds() == old(self).bounds(),
            final(self).config() == old(self).config(),
    {
        self.running = true;
        assert(self@ =~= old(self)@);
        Ok(())
    }

    /// Marks the collector as stopped.
    pub fn stop(&mut self) -> (r: Result<(), LoggingError>)
        ensures
            r is Ok,
            !final(self).running(),
            final(self)@ == old(self)@,
            final(self).wf() == old(self).wf(),
            final(self).overflow() == old(self).overflow(),
            final(self).bounds() == old(self).bounds(),
            final(self).config() == old(self).config(),
    {
        self.running = false;
        assert(self@ =~= old(self)@);
        Ok(())
    }

    pub fn is_running(&self) -> (r: bool)
        ensures
            r == self.running(),
    {
        self.running
    }

    /// The number of metrics in the store.
    pub fn get_metrics_count(&self) -> (r: usize)
        ensures
            r == self@.len(),
    {
        self.metrics_buffer.len()
    }

    /// How often a metric had to leave to make room.
    pub fn overflow_count(&self) -> (r: u64)
        ensures
            r == self.overflow(),
    {
        self.overflow_count
    }

    /// The metric at place `i`, oldest first.
    pub fn entry(&self, i: usize) -> (r: &MetricEntry)
        requires
            i < self@.len(),
        ensures
            r@ == self@[i as int],
    {
        &self.metrics_buffer[i]
    }

    /// True when the two lists hold the same labels in the same order.
    fn same_labels(a: &Vec<(String, String)>, b: &Vec<(String, String)>) -> (r: bool)
        ensures
            r == (labels_view(a@) == labels_view(b@)),
    {
        if a.len() != b.len() {
            assert(labels_view(a@).len() != labels_view(b@).len());
            return false;
        }
        let mut i: usize = 0;
        while i < a.len()
            invariant
                i <= a@.len(),
                a@.len() == b@.len(),
                forall|j: int| 0 <= j < i ==> labels_view(a@)[j] == labels_view(b@)[j],
            decreases a@.len() - i,
        {
            if !a[i].0.as_str().eq(b[i].0.as_str()) || !a[i].1.as_str().eq(b[i].1.as_str()) {
                assert(labels_view(a@)[i as int] != labels_view(b@)[i as int]);
                return false;
            }
            i += 1;
        }
        assert(labels_view(a@) =~= labels_view(b@));
        true
    }

    /// The place of the first metric with the given name and labels.
    fn position(&self, name: &str, labels: &Vec<(String, String)>) -> (r: usize)
        ensures
            r == first_match(self@, MetricKey { name: name@, labels: labels_view(labels@) }),
            r <= self@.len(),
    {
        let ghost key = MetricKey { name: name@, labels: labels_view(labels@) };
        let mut i: usize = 0;
        while i < self.metrics_buffer.len()
            invariant
                i <= self.metrics_buffer@.len(),
                key == (MetricKey { name: name@, labels: labels_view(labels@) }),
                forall|j: int| 0 <= j < i ==> (#[trigger] self@[j]).key != key,
            decreases self.metrics_buffer@.len() - i,
        {
            let entry = &self.metrics_buffer[i];
            if entry.name.as_str().eq(name) && Self::same_labels(&entry.labels, labels) {
                proof {
                    assert(self@[i as int].key == key);
                    lemma_first_match(self@, key, i as int);
                }
                return i;
            }
            assert(self@[i as int].key != key);
            i += 1;
        }
        proof {
            lemma_first_match(self@, key, i as int);
        }
        i
    }

    /// The value after `sample` is recorded on `existing`.
    fn apply(&self, existing: Option<&MetricType>, sample: Sample) -> (r: MetricType)
        requires
            self.wf(),
            existing matches Some(v) ==> v.wf(),
        ensures
            r.wf(),
            r@ == applied(
                match existing {
                    Some(v) => Some(v@),
                    None => None,
                },
                sample,
                self.bounds(),
            ),
    {
        match sample {
            Sample::Count(delta) => match existing {
                Some(MetricType::Counter(c)) => MetricType::Counter(c.saturating_add(delta)),
                _ => MetricType::Counter(delta),
            },
            Sample::Level(level) => MetricType::Gauge(level),
            Sample::Observation(value) => {
                let mut h = match existing {
                    Some(MetricType::Histogram(h)) => h.copy(),
                    _ => self.fresh_histogram(),
                };
                h.observe_saturating(value);
                MetricType::Histogram(h)
            },
            Sample::Duration(value) => {
                let mut h = match existing {
                    Some(MetricType::Timer(h)) => h.copy(),
                    _ => self.fresh_histogram(),
                };
                h.observe_saturating(value);
                MetricType::Timer(h)
            },
        }
    }

    fn fresh_histogram(&self) -> (r: Histogram)
        requires
            self.wf(),
        ensures
            r.wf(),
            r@ == empty_histogram(self.bounds()),
    {
        match Histogram::new(self.bounds.clone()) {
            Ok(h) => h,
            Err(_) => {
                assert(false);
                Histogram::empty()
            },
        }
    }

    /// Records `sample` under `name` and `labels` at the time `now_nanos`.
    pub fn record(
        &mut self,
        name: &str,
        sample: Sample,
        labels: Vec<(String, String)>,
        now_nanos: u64,
    ) -> (r: Result<(), LoggingError>)
        requires
            old(self).wf(),
        ensures
            r is Ok,
            final(self).wf(),
            final(self).config() == old(self).config(),
            final(self).bounds() == old(self).bounds(),
            final(self).running() == old(self).running(),
            final(self)@ == recorded(
                old(self)@,
                old(self).config().buffer_size as nat,
                old(self).bounds(),
                MetricKey { name: name@, labels: labels_view(labels@) },
                sample,
                now_nanos,
            ),
            final(self).overflow() == overflow_after(
                old(self)@,
                old(self).config().buffer_size as nat,
                MetricKey { name: name@, labels: labels_view(labels@) },
                old(self).overflow(),
            ),
    {
        let at = self.position(name, &labels);
        if at < self.metrics_buffer.len() {
            let value = self.apply(Some(&self.metrics_buffer[at].value), sample);
            let entry = MetricEntry {
                name: String::from_str(name),
                value,
                labels,
                timestamp_nanos: now_nanos,
            };
            self.metrics_buffer[at] = entry;
        } else {
            let value = self.apply(None, sample);
            let entry = MetricEntry {
                name: String::from_str(name),
                value,
                labels,
                timestamp_nanos: now_nanos,
            };
            if self.metrics_buffer.len() >= self.config.buffer_size {
                let _ = self.metrics_buffer.remove(0);
                self.overflow_count = self.overflow_count.saturating_add(1);
            }
            self.metrics_buffer.push(entry);
        }
        assert(self@ =~= recorded(
            old(self)@,
            old(self).config().buffer_size as nat,
            old(self).bounds(),
            MetricKey { name: name@, labels: labels_view(labels@) },
            sample,
            now_nanos,
        ));
        Ok(())
    }

    /// Adds `value` to the counter under `name` and `labels`.
    pub fn record_counter(
        &mut self,
        name: &str,
        value: u64,
        labels: Vec<(String, String)>,
        now_nanos: u64,
    ) -> (r: Result<(), LoggingError>)
        requires
            old(self).wf(),
        ensures
            r is Ok,
            final(self).wf(),
            final(self).config() == old(self).config(),
            final(self).bounds() == old(self).bounds(),
            final(self).running() == old(self).running(),
            final(self)@ == recorded(
                old(self)@,
                old(self).config().buffer_size as nat,
                old(self).bounds(),
                MetricKey { name: name@, labels: labels_view(labels@) },
                Sample::Count(value),
                now_nanos,
            ),            final(self).overflow() == overflow_after(
                old(self)@,
                old(self).config().buffer_size as nat,
                MetricKey { name: name@, labels: labels_view(labels@) },
                old(self).overflow(),
            ),
    {
        self.record(name, Sample::Count(value), labels, now_nanos)
    }

    /// Sets the gauge under `name` and `labels` to `value`.
    pub fn record_gauge(
        &mut self,
        name: &str,
        value: i64,
        labels: Vec<(String, String)>,
        now_nanos: u64,
    ) -> (r: Result<(), LoggingError>)
        requires
            old(self).wf(),
        ensures
            r is Ok,
            final(self).wf(),
            final(self).config() == old(self).config(),
            final(self).bounds() == old(self).bounds(),
            final(self).running() == old(self).running(),
            final(self)@ == recorded(
                old(self)@,
                old(self).config().buffer_size as nat,
                old(self).bounds(),
                MetricKey { name: name@, labels: labels_view(labels@) },
                Sample::Level(value),
                now_nanos,
            ),            final(self).overflow() == overflow_after(
                old(self)@,
                old(self).config().buffer_size as nat,
                MetricKey { name: name@, labels: labels_view(labels@) },
                old(self).overflow(),
            ),
    {
        self.record(name, Sample::Level(value), labels, now_nanos)
    }

    /// Counts `value` in the histogram under `name` and `labels`.
    pub fn record_histogram(
        &mut self,
        name: &str,
        value: u64,
        labels: Vec<(String, String)>,
        now_nanos: u64,
    ) -> (r: Result<(), LoggingError>)
        requires
            old(self).wf(),
        ensures
            r is Ok,
            final(self).wf(),
            final(self).config() == old(self).config(),
            final(self).bounds() == old(self).bounds(),
            final(self).running() == old(self).running(),
            final(self)@ == recorded(
                old(self)@,
                old(self).config().buffer_size as nat,
                old(self).bounds(),
                MetricKey { name: name@, labels: labels_view(labels@) },
                Sample::Observation(value),
                now_nanos,
            ),            final(self).overflow() == overflow_after(
                old(self)@,
                old(self).config().buffer_size as nat,
                MetricKey { name: name@, labels: labels_view(labels@) },
                old(self).overflow(),
            ),
    {
        self.record(name, Sample::Observation(value), labels, now_nanos)
    }

    /// Counts a duration of `micros` microseconds in the timer under `name` and
    /// `labels`.
    pub fn record_timer(
        &mut self,
        name: &str,
        micros: u64,
        labels: Vec<(String, String)>,
        now_nanos: u64,
    ) -> (r: Result<(), LoggingError>)
        requires
            old(self).wf(),
        ensures
            r is Ok,
            final(self).wf(),
            final(self).config() == old(self).config(),
            final(self).bounds() == old(self).bounds(),
            final(self).running() == old(self).running(),
            final(self)@ == recorded(
                old(self)@,
                old(self).config().buffer_size as nat,
                old(self).bounds(),
                MetricKey { name: name@, labels: labels_view(labels@) },
                Sample::Duration(micros),
                now_nanos,
            ),            final(self).overflow() == overflow_after(
                old(self)@,
                old(self).config().buffer_size as nat,
                MetricKey { name: name@, labels: labels_view(labels@) },
                old(self).overflow(),
            ),
    {
        self.record(name, Sample::Duration(micros), labels, now_nanos)
    }
}

/// A counter never falls: whatever is recorded on a counter, its count afterwards is at
/// least its count before.
pub proof fn lemma_counter_monotonic(count: u64, delta: u64, bounds: Seq<u64>)
    ensures
        applied(Some(MetricValue::Counter(count)), Sample::Count(delta), bounds)
            matches MetricValue::Counter(after) && after >= count,
{
}

/// True when a metric that was recorded last at `timestamp_nanos` is still kept at the
/// time `now_nanos`, with a retention of `retention_secs` seconds.
pub open spec fn retained(timestamp_nanos: u64, now_nanos: u64, retention_secs: u64) -> bool {
    now_nanos <= timestamp_nanos || now_nanos - timestamp_nanos <= retention_secs * 1_000_000_000
}

/// The metrics that are still kept at the time `now_nanos`, in their order.
pub open spec fn kept(metrics: Seq<MetricView>, now_nanos: u64, retention_secs: u64) -> Seq<
    MetricView,
>
    decreases metrics.len(),
{
    if metrics.len() == 0 {
        Seq::<MetricView>::empty()
    } else {
        let front = kept(metrics.drop_last(), now_nanos, retention_secs);
        if retained(metrics.last().timestamp_nanos, now_nanos, retention_secs) {
            front.push(metrics.last())
        } else {
            front
        }
    }
}

/// The labels between braces, as the Prometheus text format writes them, with `extra`
/// behind them; nothing at all where there are no labels and nothing extra.
pub open spec fn label_text(labels: Seq<(Seq<char>, Seq<char>)>, extra: Seq<char>) -> Seq<char> {
    if labels.len() == 0 && extra.len() == 0 {
        Seq::<char>::empty()
    } else {
        seq!['{'] + label_pairs(labels) + (if labels.len() > 0 && extra.len() > 0 {
            seq![',']
        } else {
            Seq::<char>::empty()
        }) + extra + seq!['}']
    }
}

/// The labels as `key="value"`, with commas between them.
pub open spec fn label_pairs(labels: Seq<(Seq<char>, Seq<char>)>) -> Seq<char>
    decreases labels.len(),
{
    if labels.len() == 0 {
        Seq::<char>::empty()
    } else {
        label_pairs(labels.drop_last()) + (if labels.len() > 1 {
            seq![',']
        } else {
            Seq::<char>::empty()
        }) + labels.last().0 + "=\""@ + labels.last().1 + seq!['"']
    }
}

/// One sample line: the name with a suffix, the labels, a space, the value, a line feed.
pub open spec fn sample_line(
    name: Seq<char>,
    suffix: Seq<char>,
    labels: Seq<char>,
    value: Seq<char>,
) -> Seq<char> {
    name + suffix + labels + seq![' '] + value + seq!['\n']
}

/// A level with its sign.
pub open spec fn signed_text(value: i64) -> Seq<char> {
    if value < 0 {
        seq!['-'] + decimal_text((-value) as nat)
    } else {
        decimal_text(value as nat)
    }
}

/// The bucket lines of a histogram: for each bound, the number of observations up to it.
pub open spec fn bucket_lines(
    name: Seq<char>,
    labels: Seq<(Seq<char>, Seq<char>)>,
    h: HistogramView,
    upto: int,
) -> Seq<char>
    decreases upto,
{
    if upto <= 0 {
        Seq::<char>::empty()
    } else {
        bucket_lines(name, labels, h, upto - 1) + sample_line(
            name,
            "_bucket"@,
            label_text(labels, "le=\""@ + decimal_text(h.bounds[upto - 1] as nat) + seq!['"']),
            decimal_text(crate::histogram::cumulative(h.counts, upto)),
        )
    }
}

/// A histogram in the Prometheus text format: a line for each bound, one for the bucket
/// without a bound, the sum and the count.
pub open spec fn histogram_text(
    name: Seq<char>,
    labels: Seq<(Seq<char>, Seq<char>)>,
    h: HistogramView,
) -> Seq<char> {
    bucket_lines(name, labels, h, h.bounds.len() as int) + sample_line(
        name,
        "_bucket"@,
        label_text(labels, "le=\"+Inf\""@),
        decimal_text(h.total as nat),
    ) + sample_line(
        name,
        "_sum"@,
        label_text(labels, Seq::<char>::empty()),
        decimal_text(h.sum as nat),
    ) + sample_line(
        name,
        "_count"@,
        label_text(labels, Seq::<char>::empty()),
        decimal_text(h.total as nat),
    )
}

/// One metric in the Prometheus text format.
pub open spec fn metric_text(m: MetricView) -> Seq<char> {
    match m.value {
        MetricValue::Counter(c) => sample_line(
            m.key.name,
            Seq::<char>::empty(),
            label_text(m.key.labels, Seq::<char>::empty()),
            decimal_text(c as nat),
        ),
        MetricValue::Gauge(g) => sample_line(
            m.key.name,
            Seq::<char>::empty(),
            label_text(m.key.labels, Seq::<char>::empty()),
            signed_text(g),
        ),
        MetricValue::Histogram(h) => histogram_text(m.key.name, m.key.labels, h),
        MetricValue::Timer(h) => histogram_text(m.key.name, m.key.labels, h),
    }
}

/// The metrics in the Prometheus text format, one after the other.
pub open spec fn export_text(metrics: Seq<MetricView>) -> Seq<char>
    decreases metrics.len(),
{
    if metrics.len() == 0 {
        Seq::<char>::empty()
    } else {
        export_text(metrics.drop_last()) + metric_text(metrics.last())
    }
}

fn push_labels(out: &mut String, labels: &Vec<(String, String)>, extra: &str)
    ensures
        final(out)@ == old(out)@ + label_text(labels_view(labels@), extra@),
{
    proof {
        reveal_strlit("{");
        reveal_strlit("}");
        reveal_strlit(",");
        reveal_strlit("\"");
    }
    if labels.len() == 0 && extra.unicode_len() == 0 {
        assert(out@ =~= old(out)@ + label_text(labels_view(labels@), extra@));
        return ;
    }
    out.append("{");
    let ghost head = out@;
    let ghost all = labels_view(labels@);
    let mut i: usize = 0;
    assert(all.take(0) =~= Seq::<(Seq<char>, Seq<char>)>::empty());
    while i < labels.len()
        invariant
            i <= labels@.len(),
            all == labels_view(labels@),
            ","@ == seq![','],
            "\""@ == seq!['"'],
            out@ == head + label_pairs(all.take(i as int)),
        decreases labels@.len() - i,
    {
        if i > 0 {
            out.append(",");
        }
        out.append(labels[i].0.as_str());
        out.append("=\"");
        out.append(labels[i].1.as_str());
        out.append("\"");
        i += 1;
        proof {
            let now = all.take(i as int);
            assert(now.drop_last() =~= all.take(i - 1));
            assert(now.last() == all[i - 1]);
            assert(out@ =~= head + label_pairs(now));
        }
    }
    assert(all.take(labels@.len() as int) =~= all);
    if labels.len() > 0 && extra.unicode_len() > 0 {
        out.append(",");
    }
    out.append(extra);
    out.append("}");
    assert(out@ =~= old(out)@ + label_text(labels_view(labels@), extra@));
}

fn push_sample(
    out: &mut String,
    name: &str,
    suffix: &str,
    labels: &Vec<(String, String)>,
    extra: &str,
    value: &str,
)
    ensures
        final(out)@ == old(out)@ + sample_line(
            name@,
            suffix@,
            label_text(labels_view(labels@), extra@),
            value@,
        ),
{
    proof {
        reveal_strlit(" ");
        reveal_strlit("\n");
    }
    out.append(name);
    out.append(suffix);
    push_labels(out, labels, extra);
    out.append(" ");
    out.append(value);
    out.append("\n");
    assert(out@ =~= old(out)@ + sample_line(
        name@,
        suffix@,
        label_text(labels_view(labels@), extra@),
        value@,
    ));
}

fn number_text(value: u64) -> (r: String)
    ensures
        r@ == decimal_text(value as nat),
{
    let mut text = String::new();
    push_decimal(&mut text, value);
    assert(text@ =~= decimal_text(value as nat));
    text
}

fn level_text(value: i64) -> (r: String)
    ensures
        r@ == signed_text(value),
{
    proof {
        reveal_strlit("-");
    }
    let mut text = String::new();
    if value < 0 {
        text.append("-");
        let magnitude: u64 = if value == i64::MIN {
            9223372036854775808u64
        } else {
            (-value) as u64
        };
        push_decimal(&mut text, magnitude);
    } else {
        push_decimal(&mut text, value as u64);
    }
    assert(text@ =~= signed_text(value));
    text
}

fn push_histogram(out: &mut String, name: &str, labels: &Vec<(String, String)>, h: &Histogram)
    requires
        h.wf(),
    ensures
        final(out)@ == old(out)@ + histogram_text(name@, labels_view(labels@), h@),
{
    proof {
        h.lemma_view();
        reveal_strlit("");
        reveal_strlit("\"");
        assert(""@ =~= Seq::<char>::empty());
    }
    let cumulative = h.cumulative_counts();
    let n = h.bucket_count() - 1;
    let mut i: usize = 0;
    while i < n
        invariant
            i <= n,
            n == h@.bounds.len(),
            h.wf(),
            h@.bounds == h.bounds(),
            h@.counts == h.counts(),
            cumulative@.len() == n + 1,
            h.counts().len() == n + 1,
            "\""@ == seq!['"'],
            forall|k: int|
                0 <= k < cumulative@.len() ==> cumulative@[k] == crate::histogram::cumulative(
                    h.counts(),
                    k + 1,
                ),
            out@ == old(out)@ + bucket_lines(name@, labels_view(labels@), h@, i as int),
        decreases n - i,
    {
        let bound = match h.bound(i) {
            Some(bound) => bound,
            None => 0,
        };
        let mut extra = String::from_str("le=\"");
        push_decimal(&mut extra, bound);
        extra.append("\"");
        let value = number_text(cumulative[i]);
        push_sample(out, name, "_bucket", labels, extra.as_str(), value.as_str());
        i += 1;
    }
    let total = number_text(h.count());
    let sum = number_text(h.sum_value());
    push_sample(out, name, "_bucket", labels, "le=\"+Inf\"", total.as_str());
    push_sample(out, name, "_sum", labels, "", sum.as_str());
    push_sample(out, name, "_count", labels, "", total.as_str());
    assert(out@ =~= old(out)@ + histogram_text(name@, labels_view(labels@), h@));
}

impl MetricsCollector {
    /// The metrics in the Prometheus text format: one sample for each counter and each
    /// gauge, and for each histogram and timer its buckets, its sum and its count.
    pub fn export_prometheus(&self) -> (r: String)
        requires
            self.wf(),
        ensures
            r@ == export_text(self@),
    {
        proof {
            reveal_strlit("");
            assert(""@ =~= Seq::<char>::empty());
        }
        let mut out = String::new();
        let mut i: usize = 0;
        assert(self@.take(0) =~= Seq::<MetricView>::empty());
        while i < self.metrics_buffer.len()
            invariant
                i <= self.metrics_buffer@.len(),
                self.wf(),
                ""@ == Seq::<char>::empty(),
                out@ == export_text(self@.take(i as int)),
            decreases self.metrics_buffer@.len() - i,
        {
            let entry = &self.metrics_buffer[i];
            let ghost before = out@;
            match &entry.value {
                MetricType::Counter(c) => {
                    let value = number_text(*c);
                    push_sample(&mut out, entry.name.as_str(), "", &entry.labels, "", value.as_str());
                },
                MetricType::Gauge(g) => {
                    let value = level_text(*g);
                    push_sample(&mut out, entry.name.as_str(), "", &entry.labels, "", value.as_str());
                },
                MetricType::Histogram(h) => {
                    push_histogram(&mut out, entry.name.as_str(), &entry.labels, h);
                },
                MetricType::Timer(h) => {
                    push_histogram(&mut out, entry.name.as_str(), &entry.labels, h);
                },
            }
            i += 1;
            proof {
                let now = self@.take(i as int);
                assert(now.drop_last() =~= self@.take(i - 1));
                assert(now.last() == self@[i - 1]);
                assert(out@ == before + metric_text(now.last()));
            }
        }
        assert(self@.take(self.metrics_buffer@.len() as int) =~= self@);
        out
    }

    /// Hands out the metrics in the Prometheus text format, then lets go of every metric
    /// that was not recorded within the retention time before `now_nanos`. Counters,
    /// gauges and histograms that stay keep what they have gathered.
    pub fn flush(&mut self, now_nanos: u64) -> (r: String)
        requires
            old(self).wf(),
        ensures
            final(self).wf(),
            r@ == export_text(old(self)@),
            final(self)@ == kept(old(self)@, now_nanos, old(self).config().retention_time_secs),
            final(self).config() == old(self).config(),
            final(self).bounds() == old(self).bounds(),
            final(self).running() == old(self).running(),
            final(self).overflow() == old(self).overflow(),
    {
        let text = self.export_prometheus();
        self.expire(now_nanos);
        text
    }

    /// Lets go of every metric that was not recorded within the retention time before
    /// `now_nanos`.
    pub fn expire(&mut self, now_nanos: u64)
        requires
            old(self).wf(),
        ensures
            final(self).wf(),
            final(self)@ == kept(old(self)@, now_nanos, old(self).config().retention_time_secs),
            final(self).config() == old(self).config(),
            final(self).bounds() == old(self).bounds(),
            final(self).running() == old(self).running(),
            final(self).overflow() == old(self).overflow(),
    {
        let retention = self.config.retention_time_secs;
        let limit: u128 = retention as u128 * 1_000_000_000;
        let ghost all = self@;
        let ghost mut done: int = 0;
        let mut i: usize = 0;
        assert(all.take(0) =~= Seq::<MetricView>::empty());
        assert(all.skip(0) =~= all);
        while i < self.metrics_buffer.len()
            invariant
                self.wf(),
                self.config == old(self).config,
                self.bounds == old(self).bounds,
                self.running == old(self).running,
                self.overflow_count == old(self).overflow_count,
                all == old(self)@,
                retention == old(self).config.retention_time_secs,
                limit == retention * 1_000_000_000,
                0 <= done <= all.len(),
                i == kept(all.take(done), now_nanos, retention).len(),
                self@ == kept(all.take(done), now_nanos, retention) + all.skip(done),
            decreases all.len() - done,
        {
            let stamp = self.metrics_buffer[i].timestamp_nanos;
            let stays = now_nanos <= stamp || ((now_nanos - stamp) as u128) <= limit;
            let ghost before = self@;
            proof {
                assert(before[i as int] == all.skip(done)[0]);
                assert(all.take(done + 1).drop_last() =~= all.take(done));
                assert(all.take(done + 1).last() == all[done]);
                assert(stays == retained(all[done].timestamp_nanos, now_nanos, retention));
            }
            if stays {
                i += 1;
            } else {
                let _ = self.metrics_buffer.remove(i);
            }
            proof {
                let front = kept(all.take(done), now_nanos, retention);
                let next = kept(all.take(done + 1), now_nanos, retention);
                let rest = all.skip(done + 1);
                assert(before =~= front + all.skip(done));
                assert(before.len() == front.len() + (all.len() - done));
                assert(all.take(done + 1).drop_last() == all.take(done));
                assert(next == if stays {
                    front.push(all[done])
                } else {
                    front
                });
                assert(self@.len() == if stays {
                    before.len()
                } else {
                    (before.len() - 1) as nat
                });
                assert(self@.len() == next.len() + rest.len());
                assert forall|j: int| 0 <= j < self@.len() implies self@[j] == (next + rest)[j] by {
                    if j < front.len() {
                        assert(self@[j] == before[j]);
                    } else if stays && j == front.len() {
                        assert(self@[j] == before[j]);
                    } else if stays {
                        assert(self@[j] == before[j]);
                        assert(before[j] == all.skip(done)[j - front.len()]);
                    } else {
                        assert(self@[j] == before[j + 1]);
                        assert(before[j + 1] == all.skip(done)[j + 1 - front.len()]);
                    }
                }
                assert(self@ =~= next + rest);
                done = done + 1;
            }
        }
        proof {
            assert(all.skip(done).len() == 0);
            assert(all.take(done) =~= all);
            assert(self@ =~= kept(all, now_nanos, retention));
        }
    }
}

} // verus!
