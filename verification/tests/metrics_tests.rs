use logging_engine::aggregator::{AggregatorConfig, LogAggregator};
use logging_engine::collector::{MetricType, MetricsCollector, MetricsConfig};
use logging_engine::error::LoggingError;
use logging_engine::histogram::Histogram;
use logging_engine::metrics::{LoggingMetrics, MetricCounters, MetricsReporter};

fn labels(pairs: &[(&str, &str)]) -> Vec<(String, String)> {
    pairs.iter().map(|(k, v)| (k.to_string(), v.to_string())).collect()
}

#[test]
fn metrics_histogram_correctness() {
    // bounds 0.01, 0.1 and 1.0 seconds, in microseconds
    let mut h = Histogram::new(vec![10_000, 100_000, 1_000_000]).unwrap();
    for seconds in [0.005f64, 0.05, 0.5, 5.0] {
        h.observe((seconds * 1_000_000.0) as u64);
    }
    assert_eq!(h.cumulative_counts(), vec![1, 2, 3, 4]);
    assert_eq!(h.count(), 4);
    assert_eq!(h.bucket_count(), 4);
    assert_eq!(
        (0..4).map(|i| h.bound(i)).collect::<Vec<_>>(),
        vec![Some(10_000), Some(100_000), Some(1_000_000), None]
    );
}

#[test]
fn a_value_on_a_bound_falls_into_its_bucket() {
    let mut h = Histogram::new(vec![10, 20]).unwrap();
    for v in [0, 10, 11, 20, 21, u64::MAX] {
        h.observe(v);
    }
    assert_eq!((h.bucket(0), h.bucket(1), h.bucket(2)), (2, 2, 2));
    assert_eq!(h.cumulative_counts(), vec![2, 4, 6]);
    let mut unbounded = Histogram::new(vec![]).unwrap();
    unbounded.observe(5);
    unbounded.observe_saturating(6);
    assert_eq!(unbounded.cumulative_counts(), vec![2]);
    assert_eq!(Histogram::empty().cumulative_counts(), vec![0]);
}

#[test]
fn bucket_counts_add_up_and_cumulative_counts_never_fall() {
    let mut h = Histogram::new(vec![1, 5, 25, 125, 625]).unwrap();
    let mut x = 1u64;
    for n in 1..=2_000u64 {
        x = x.wrapping_mul(2862933555777941757).wrapping_add(3037000493);
        h.observe((x >> 40) % 1_000);
        let total: u64 = (0..h.bucket_count()).map(|i| h.bucket(i)).sum();
        assert_eq!(total, n);
        assert_eq!(h.count(), n);
        let cumulative = h.cumulative_counts();
        assert!(cumulative.windows(2).all(|w| w[0] <= w[1]));
        assert_eq!(*cumulative.last().unwrap(), n);
    }
    let copy = h.copy();
    assert_eq!(copy.cumulative_counts(), h.cumulative_counts());
}

#[test]
fn bounds_must_ascend() {
    assert!(matches!(Histogram::new(vec![1, 1]), Err(LoggingError::MetricsError(_))));
    assert!(matches!(Histogram::new(vec![1, 3, 2]), Err(LoggingError::MetricsError(_))));
    assert!(Histogram::new(vec![7]).is_ok());
    assert_eq!(Histogram::new(vec![1, 2, 3]).unwrap().into_bounds(), vec![1, 2, 3]);
}

#[test]
fn the_collector_keys_by_name_and_labels() {
    let mut c = MetricsCollector::new().unwrap();
    assert!(!c.is_running());
    c.start().unwrap();
    assert!(c.is_running());
    c.record_counter("requests", 100, labels(&[("service", "api")]), 1).unwrap();
    c.record_gauge("cpu_usage", 755, vec![], 2).unwrap();
    c.record_histogram("response_times", 1_000, vec![], 3).unwrap();
    c.record_timer("process_time", 150_000, vec![], 4).unwrap();
    assert_eq!(c.get_metrics_count(), 4);

    c.record_counter("requests", 5, labels(&[("service", "api")]), 5).unwrap();
    c.record_counter("requests", 1, labels(&[("service", "web")]), 6).unwrap();
    c.record_counter("requests", 1, labels(&[("service", "api"), ("zone", "a")]), 7).unwrap();
    c.record_gauge("cpu_usage", -3, vec![], 8).unwrap();
    c.record_histogram("response_times", 2_000, vec![], 9).unwrap();
    assert_eq!(c.get_metrics_count(), 6);
    assert_eq!(c.overflow_count(), 0);

    let first = c.entry(0);
    assert_eq!(first.name, "requests");
    assert_eq!(first.timestamp_nanos, 5);
    assert!(matches!(first.value, MetricType::Counter(105)));
    assert!(matches!(c.entry(1).value, MetricType::Gauge(-3)));
    match &c.entry(2).value {
        MetricType::Histogram(h) => assert_eq!(h.count(), 2),
        _ => panic!("a histogram"),
    }
    match &c.entry(3).value {
        MetricType::Timer(h) => assert_eq!(h.count(), 1),
        _ => panic!("a timer"),
    }
    assert!(matches!(c.entry(4).value, MetricType::Counter(1)));
    assert_eq!(c.entry(5).labels, labels(&[("service", "api"), ("zone", "a")]));
    c.stop().unwrap();
    assert!(!c.is_running());
}

#[test]
fn a_full_collector_lets_the_oldest_metric_go() {
    let config = MetricsConfig { buffer_size: 3, ..MetricsConfig::default() };
    let mut c = MetricsCollector::with_config(config, vec![10, 100]).unwrap();
    for (i, name) in ["a", "b", "c"].iter().enumerate() {
        c.record_counter(name, 1, vec![], i as u64).unwrap();
    }
    c.record_counter("a", 1, vec![], 10).unwrap();
    assert_eq!(c.get_metrics_count(), 3);
    assert_eq!(c.overflow_count(), 0);
    c.record_counter("d", 1, vec![], 11).unwrap();
    assert_eq!(c.get_metrics_count(), 3);
    assert_eq!(c.overflow_count(), 1);
    assert_eq!(
        (0..3).map(|i| c.entry(i).name.clone()).collect::<Vec<_>>(),
        vec!["b", "c", "d"]
    );
    c.record_counter("a", 7, vec![], 12).unwrap();
    assert_eq!(c.overflow_count(), 2);
    assert!(matches!(c.entry(2).value, MetricType::Counter(7)));
    assert_eq!(c.entry(0).name, "c");

    c.record_histogram("d", 50, vec![], 13).unwrap();
    match &c.entry(1).value {
        MetricType::Histogram(h) => assert_eq!(h.cumulative_counts(), vec![0, 1, 1]),
        _ => panic!("a sample of another kind starts the metric afresh"),
    }
    c.record_counter("c", u64::MAX, vec![], 14).unwrap();
    assert!(matches!(c.entry(0).value, MetricType::Counter(u64::MAX)));

    assert!(matches!(
        MetricsCollector::with_config(MetricsConfig { buffer_size: 0, ..config }, vec![]),
        Err(LoggingError::ConfigError(_))
    ));
    assert!(matches!(
        MetricsCollector::with_config(config, vec![5, 5]),
        Err(LoggingError::MetricsError(_))
    ));
    assert_eq!(
        MetricsConfig::default(),
        MetricsConfig {
            buffer_size: 10_000,
            flush_interval_millis: 100,
            retention_time_secs: 300,
            high_precision: true,
            max_concurrent: 100,
        }
    );
}

#[test]
fn logging_metrics_count_by_name() {
    let mut m = LoggingMetrics::new();
    assert_eq!(m.snapshot(), MetricCounters {
        entries_logged: 0,
        entries_dropped: 0,
        bytes_logged: 0,
        flush_count: 0,
        error_count: 0,
        avg_log_latency_us: 0,
        p50_log_latency_us: 0,
        p99_log_latency_us: 0,
        max_log_latency_us: 0,
        buffer_utilization: 0,
        buffer_overflow_count: 0,
        transport_send_count: 0,
        transport_error_count: 0,
    });
    m.increment_entries_logged();
    m.increment_entries_logged();
    m.increment_entries_dropped();
    m.add_bytes_logged(1_000);
    m.add_bytes_logged(u64::MAX);
    m.increment_flush_count();
    m.increment_error_count();
    m.set_buffer_utilization(75);
    m.set_buffer_utilization(40);
    m.increment_buffer_overflow();
    m.increment_transport_send();
    m.increment_transport_send();
    m.increment_transport_send();
    m.increment_transport_error();
    let s = m.snapshot();
    assert_eq!((s.entries_logged, s.entries_dropped, s.bytes_logged), (2, 1, u64::MAX));
    assert_eq!((s.flush_count, s.error_count, s.buffer_utilization), (1, 1, 40));
    assert_eq!((s.buffer_overflow_count, s.transport_send_count, s.transport_error_count), (1, 3, 1));

    assert_eq!(m.get_level_count("INFO"), 0);
    m.increment_level_count("INFO");
    m.increment_level_count("INFO");
    m.increment_level_count("ERROR");
    assert_eq!(m.get_level_count("INFO"), 2);
    assert_eq!(m.get_level_count("ERROR"), 1);
    assert_eq!(m.get_level_count("info"), 0);
    m.increment_counter("orders");
    m.add_to_counter("orders", 41);
    m.add_to_counter("fills", u64::MAX);
    m.add_to_counter("fills", 3);
    assert_eq!(m.get_counter("orders"), 42);
    assert_eq!(m.get_counter("fills"), u64::MAX);
    assert_eq!(m.get_counter("none"), 0);
    m.set_gauge("depth", 9);
    m.set_gauge("depth", 4);
    assert_eq!(m.get_gauge("depth"), 4);
    assert_eq!(m.get_gauge("none"), 0);
    assert_eq!(m.get_counter("depth"), 0);

    let summary = m.get_summary();
    assert_eq!(summary.entries_logged, 2);
    assert_eq!(summary.level_counts.len(), 2);
    assert_eq!(summary.level_counts.get("INFO"), Some(&2));
    assert_eq!(summary.level_counts.get("ERROR"), Some(&1));
    assert_eq!(summary.custom_counters.get("orders"), Some(&42));
    assert_eq!(summary.custom_counters.get("fills"), Some(&u64::MAX));
    assert_eq!(summary.custom_gauges.get("depth"), Some(&4));
    assert_eq!(summary.custom_gauges.len(), 1);

    m.reset_metrics();
    assert_eq!(m.snapshot().entries_logged, 0);
    assert_eq!(m.snapshot().bytes_logged, 0);
    assert_eq!(m.get_level_count("INFO"), 0);
    assert_eq!(m.get_counter("orders"), 0);
    assert_eq!(m.get_gauge("depth"), 0);
    assert_eq!(m.get_summary().level_counts.len(), 0);
}

#[test]
fn latency_percentiles() {
    let mut m = LoggingMetrics::new();
    m.calculate_percentiles();
    assert_eq!(m.snapshot().p99_log_latency_us, 0);
    // kept: 100, 99, ..., 1; one latency that the draw does not keep
    for v in (1..=100u64).rev() {
        m.record_latency_sample(v, 0, 0);
    }
    m.record_latency_sample(5_000, 10, 0);
    m.record_latency_sample(7, 99, 0);
    assert_eq!(m.snapshot().max_log_latency_us, 5_000);
    m.calculate_percentiles();
    let s = m.snapshot();
    assert_eq!(s.p99_log_latency_us, 100);
    assert_eq!(s.p50_log_latency_us, 51);
    assert_eq!(s.avg_log_latency_us, 50);
    let summary = m.get_summary();
    assert_eq!(summary.p99_log_latency_us, 100);
    assert_eq!(summary.avg_log_latency_us, 50);
    assert_eq!(summary.max_log_latency_us, 5_000);

    let mut one = LoggingMetrics::new();
    one.record_latency_sample(u64::MAX, 9, 0);
    one.record_latency_sample(u64::MAX, 9, 0);
    one.calculate_percentiles();
    assert_eq!(one.snapshot().avg_log_latency_us, u64::MAX);
    assert_eq!(one.snapshot().p99_log_latency_us, u64::MAX);
}

#[test]
fn about_one_latency_in_ten_is_kept() {
    let mut m = LoggingMetrics::new();
    for i in 0..20_000u64 {
        m.record_log_latency(i % 1_000);
    }
    assert_eq!(m.snapshot().max_log_latency_us, 999);
    m.calculate_percentiles();
    let s = m.snapshot();
    assert!(s.p50_log_latency_us <= s.p99_log_latency_us);
    assert!(s.p99_log_latency_us <= 999);
    assert!(s.avg_log_latency_us > 300 && s.avg_log_latency_us < 700);

    let mut full = LoggingMetrics::new();
    for _ in 0..10_000 {
        full.record_latency_sample(1, 0, 0);
    }
    full.record_latency_sample(9, 0, 9_999);
    full.record_latency_sample(9, 0, 0);
    full.calculate_percentiles();
    assert_eq!(full.snapshot().p50_log_latency_us, 1);
    assert_eq!(full.snapshot().p99_log_latency_us, 1);
    assert_eq!(full.snapshot().avg_log_latency_us, (9_998 + 18) / 10_000);
    for _ in 0..1_000 {
        full.record_log_latency(1);
    }
    full.calculate_percentiles();
    assert_eq!(full.snapshot().p50_log_latency_us, 1);
}

#[test]
fn the_summary_in_prometheus_text() {
    let mut m = LoggingMetrics::new();
    m.increment_entries_logged();
    m.add_bytes_logged(120);
    m.increment_level_count("INFO");
    m.add_to_counter("orders", 3);
    m.set_gauge("depth", 8);
    m.record_latency_sample(40, 0, 0);
    let text = m.get_summary().to_prometheus_format();
    assert_eq!(
        text,
        "logging_entries_total 1\n\
         logging_entries_dropped_total 0\n\
         logging_bytes_total 120\n\
         logging_flushes_total 0\n\
         logging_errors_total 0\n\
         logging_latency_avg_microseconds 40\n\
         logging_latency_p99_microseconds 40\n\
         logging_latency_max_microseconds 40\n\
         logging_buffer_utilization_percent 0\n\
         logging_buffer_overflows_total 0\n\
         logging_transport_sends_total 0\n\
         logging_transport_errors_total 0\n\
         logging_level_total{level=\"INFO\"} 1\n\
         logging_custom_counter{name=\"orders\"} 3\n\
         logging_custom_gauge{name=\"depth\"} 8\n"
    );
}

#[test]
fn the_aggregator_batches_while_it_runs() {
    let config = AggregatorConfig { batch_size: 3, ..AggregatorConfig::default() };
    let mut a = LogAggregator::new(config).unwrap();
    assert!(!a.is_running());
    assert!(a.process_log_entry("INFO", "m", "ignored", 0).is_none());
    assert_eq!(a.get_metrics().get("processed_entries"), Some(&0));
    a.start().unwrap();
    assert!(a.is_running());
    assert!(a.process_log_entry("INFO", "m", "one", 1).is_none());
    assert!(a.process_log_entry("WARN", "m", "two", 2).is_none());
    let batch = a.process_log_entry("ERROR", "n", "three", 3).unwrap();
    assert_eq!(
        batch.iter().map(|e| (e.level.as_str(), e.message.as_str(), e.timestamp_nanos)).collect::<Vec<_>>(),
        vec![("INFO", "one", 1), ("WARN", "two", 2), ("ERROR", "three", 3)]
    );
    assert_eq!(batch[2].module, "n");
    assert!(a.process_log_entry("INFO", "m", "four", 4).is_none());
    let metrics = a.get_metrics();
    assert_eq!(metrics.len(), 2);
    assert_eq!(metrics.get("processed_entries"), Some(&4));
    assert_eq!(metrics.get("batches_sent"), Some(&1));
    a.stop().unwrap();
    assert!(!a.is_running());
    let defaults = AggregatorConfig::default();
    assert_eq!(defaults.batch_size, 1000);
    assert_eq!(defaults.batch_timeout_millis, 100);
    assert_eq!(defaults.max_memory_usage, 100 * 1024 * 1024);
    assert!(defaults.filters.is_empty());
}

#[test]
fn the_collector_exports_prometheus_text() {
    let mut c = MetricsCollector::with_config(MetricsConfig::default(), vec![10_000, 1_000_000]).unwrap();
    c.record_counter("requests_total", 3, labels(&[("service", "api"), ("zone", "a")]), 1).unwrap();
    c.record_counter("plain_total", 9, vec![], 1).unwrap();
    c.record_gauge("depth", -4, labels(&[("book", "btc")]), 1).unwrap();
    c.record_gauge("lowest", i64::MIN, vec![], 1).unwrap();
    for v in [5_000, 50_000, 5_000_000] {
        c.record_histogram("latency", v, vec![], 1).unwrap();
    }
    c.record_timer("send", 20_000, labels(&[("to", "tcp")]), 1).unwrap();
    assert_eq!(
        c.export_prometheus(),
        "requests_total{service=\"api\",zone=\"a\"} 3\n\
         plain_total 9\n\
         depth{book=\"btc\"} -4\n\
         lowest -9223372036854775808\n\
         latency_bucket{le=\"10000\"} 1\n\
         latency_bucket{le=\"1000000\"} 2\n\
         latency_bucket{le=\"+Inf\"} 3\n\
         latency_sum 5055000\n\
         latency_count 3\n\
         send_bucket{to=\"tcp\",le=\"10000\"} 0\n\
         send_bucket{to=\"tcp\",le=\"1000000\"} 1\n\
         send_bucket{to=\"tcp\",le=\"+Inf\"} 1\n\
         send_sum{to=\"tcp\"} 20000\n\
         send_count{to=\"tcp\"} 1\n"
    );
    assert_eq!(MetricsCollector::new().unwrap().export_prometheus(), "");
}

#[test]
fn a_flush_keeps_what_was_recorded_lately() {
    let config = MetricsConfig { retention_time_secs: 10, ..MetricsConfig::default() };
    let mut c = MetricsCollector::with_config(config, vec![]).unwrap();
    let second = 1_000_000_000u64;
    c.record_counter("old", 1, vec![], 0).unwrap();
    c.record_counter("edge", 1, vec![], 5 * second).unwrap();
    c.record_counter("fresh", 1, vec![], 14 * second).unwrap();
    c.record_counter("ahead", 1, vec![], 99 * second).unwrap();
    c.record_counter("old_again", 1, vec![], 1).unwrap();
    let text = c.flush(15 * second);
    assert_eq!(text, "old 1\nedge 1\nfresh 1\nahead 1\nold_again 1\n");
    assert_eq!(c.get_metrics_count(), 3);
    assert_eq!(
        (0..3).map(|i| c.entry(i).name.clone()).collect::<Vec<_>>(),
        vec!["edge", "fresh", "ahead"]
    );
    c.record_counter("fresh", 2, vec![], 15 * second).unwrap();
    assert_eq!(c.flush(15 * second), "edge 1\nfresh 3\nahead 1\n");
    assert_eq!(c.get_metrics_count(), 3);
    c.expire(15 * second + 1);
    assert_eq!(c.get_metrics_count(), 2);
    c.expire(u64::MAX);
    assert_eq!(c.get_metrics_count(), 0);
    assert_eq!(c.flush(0), "");

    let never = MetricsConfig { retention_time_secs: u64::MAX, ..MetricsConfig::default() };
    let mut c = MetricsCollector::with_config(never, vec![]).unwrap();
    c.record_counter("kept", 1, vec![], 0).unwrap();
    c.expire(u64::MAX);
    assert_eq!(c.get_metrics_count(), 1);
}

#[test]
fn the_reporter_writes_the_summary() {
    let mut reporter = MetricsReporter::new(LoggingMetrics::new());
    {
        let m = reporter.metrics_mut();
        m.increment_entries_logged();
        m.increment_entries_logged();
        m.increment_entries_dropped();
        m.set_buffer_utilization(12);
        m.record_latency_sample(30, 0, 0);
        m.record_latency_sample(90, 50, 0);
    }
    assert_eq!(
        reporter.report(),
        "=== Logging Metrics ===\n\
         Entries logged: 2\n\
         Entries dropped: 1\n\
         Avg latency: 30us\n\
         P99 latency: 30us\n\
         Max latency: 90us\n\
         Buffer utilization: 12%\n\
         ======================\n"
    );
}
