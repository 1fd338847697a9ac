use logging_engine::batch::LogBatch;
use logging_engine::batcher::{BatchLimits, Batcher, BatcherAction};
use logging_engine::config::LoggerConfig;
use logging_engine::error::LoggingError;
use logging_engine::level::LogLevel;
use logging_engine::lifecycle::ServiceStatus;
use logging_engine::logger::{init, init_with_config, Submission, UltraLogger};
use logging_engine::settings::ConfigLoader;
use logging_engine::record::{LogEntry, LogValue};
use logging_engine::stats::LoggerStats;
use logging_engine::string_map::StringMap;
use logging_engine::transport::{RetryDecision, RetryPolicy, RetryState, SendOutcome};

fn limits(batch_size: usize, flush_interval_micros: u64) -> BatchLimits {
    BatchLimits { batch_size, flush_interval_micros, max_memory_bytes: 1 << 20 }
}

fn lines_of(batch: &mut LogBatch) -> Vec<String> {
    String::from_utf8(batch.serialize_batch().unwrap().to_vec())
        .unwrap()
        .lines()
        .map(|l| l.to_string())
        .collect()
}

fn accounted(logger: &UltraLogger) -> bool {
    let s = logger.stats();
    s.records_submitted == s.records_logged + s.records_dropped
}

#[test]
fn test_logger_initialization() {
    let result = init();
    assert!(result.is_ok());
}

#[test]
fn lib_test_default_logger() {
    let logger = UltraLogger::default();
    assert_eq!(logger.service(), "default");
}

#[test]
fn integration_test_test_default_logger() {
    let logger = UltraLogger::default();
    assert_eq!(logger.service(), "default");
}

#[test]
fn initialization_checks_the_configuration() {
    let mut logger = init().unwrap();
    assert_eq!(logger.debug("hidden".into()), Submission::Filtered);
    assert_eq!(logger.info("shown".into()), Submission::Accepted(0));

    let mut config = LoggerConfig::default();
    config.level = "ERROR".to_string();
    let mut logger = init_with_config(config).unwrap();
    assert_eq!(logger.warn("hidden".into()), Submission::Filtered);
    assert_eq!(logger.error("shown".into()), Submission::Accepted(0));
    assert_eq!(logger.next_sequence(), 1);

    let mut config = LoggerConfig::default();
    config.level = "shouting".to_string();
    assert!(matches!(init_with_config(config), Err(LoggingError::InvalidLogLevel(_))));
    let mut config = LoggerConfig::default();
    config.transport.transport_type = "carrier-pigeon".to_string();
    assert!(matches!(init_with_config(config), Err(LoggingError::TransportError(_))));
}

#[test]
fn a_logger_needs_sound_limits() {
    let make = |ring, l| UltraLogger::with_config("s".into(), LogLevel::Info, ring, l, 0);
    assert!(make(1024, limits(4, 10)).is_ok());
    assert!(matches!(make(1000, limits(4, 10)), Err(LoggingError::BufferError(_))));
    assert!(matches!(make(0, limits(4, 10)), Err(LoggingError::BufferError(_))));
    assert!(matches!(make(1024, limits(0, 10)), Err(LoggingError::ConfigError(_))));
    let no_memory = BatchLimits { batch_size: 4, flush_interval_micros: 10, max_memory_bytes: 0 };
    assert!(matches!(make(1024, no_memory), Err(LoggingError::ConfigError(_))));
    assert!(matches!(Batcher::new(limits(0, 1), 0, 1), Err(LoggingError::ConfigError(_))));
    assert_eq!(
        LoggerStats::new(),
        LoggerStats {
            records_submitted: 0,
            records_logged: 0,
            records_dropped: 0,
            batches_processed: 0,
            transport_errors: 0,
            buffer_overflow: 0,
            avg_batch_size: 0,
            total_latency_ns: 0,
        }
    );
}

#[test]
fn cold_start_submit_and_flush() {
    let mut logger =
        UltraLogger::with_config("s".to_string(), LogLevel::Info, 1024, limits(4, 1_000), 0).unwrap();
    for (i, m) in ["a", "b", "c", "d"].iter().enumerate() {
        let r = logger.log_at(LogLevel::Info, m.to_string(), 1_000 + i as u64);
        assert_eq!(r, Submission::Accepted(i as u64));
    }
    let mut batches = Vec::new();
    for _ in 0..4 {
        if let Some(batch) = logger.pump(10) {
            batches.push(batch);
        }
    }
    assert!(logger.pump(20).is_none());
    assert!(logger.flush(30).is_none());
    assert_eq!(batches.len(), 1);
    let mut batch = batches.pop().unwrap();
    assert_eq!(batch.len(), 4);
    let lines = lines_of(&mut batch);
    assert_eq!(lines.len(), 4);
    for (i, m) in ["a", "b", "c", "d"].iter().enumerate() {
        let expected = format!(
            "{{\"timestamp\":{},\"level\":\"INFO\",\"service\":\"s\",\"message\":\"{}\",\"fields\":{{}},\"sequence\":{}}}",
            1_000 + i,
            m,
            i
        );
        assert_eq!(lines[i], expected);
    }
    assert!(!logger.is_idle());
    logger.complete(batch, true, 0);
    assert!(logger.is_idle());
    let stats = logger.stats();
    assert_eq!(stats.records_submitted, 4);
    assert_eq!(stats.records_logged, 4);
    assert_eq!(stats.records_dropped, 0);
    assert_eq!(stats.batches_processed, 1);
    assert_eq!(stats.avg_batch_size, 4);
    assert_eq!(stats.mean_batch_size(), 4);
}

#[test]
fn time_based_flush() {
    let mut logger =
        UltraLogger::with_config("s".to_string(), LogLevel::Info, 1024, limits(1024, 10_000), 0)
            .unwrap();
    for m in ["a", "b", "c"] {
        assert!(matches!(logger.info(m.to_string()), Submission::Accepted(_)));
    }
    for now in [100, 200, 300] {
        assert!(logger.pump(now).is_none());
    }
    assert!(logger.pump(10_000).is_none());
    let batch = logger.pump(10_001).expect("the interval has passed");
    assert_eq!(batch.len(), 3);
    assert_eq!(
        (0..3).map(|i| batch.get(i).message.clone()).collect::<Vec<_>>(),
        vec!["a", "b", "c"]
    );
    assert!(logger.pump(20_000).is_none());
    logger.complete(batch, true, 0);
    assert!(accounted(&logger));

    assert!(matches!(logger.info("late".to_string()), Submission::Accepted(3)));
    let batch = logger.pump(30_002).expect("a record that comes after the interval goes at once");
    assert_eq!(batch.len(), 1);
    logger.complete(batch, true, 0);
    assert!(logger.is_idle());
}

#[test]
fn overload_drop() {
    let batch_size = 64;
    let mut logger =
        UltraLogger::with_config("s".to_string(), LogLevel::Info, 1024, limits(batch_size, 100), 0)
            .unwrap();
    let mut accepted = 0u64;
    let mut dropped = 0u64;
    for i in 0..100_000u64 {
        match logger.log_at(LogLevel::Info, "x".to_string(), i) {
            Submission::Accepted(seq) => {
                assert_eq!(seq, i);
                accepted += 1;
            }
            Submission::Dropped(seq) => {
                assert_eq!(seq, i);
                dropped += 1;
            }
            Submission::Filtered => panic!("nothing is filtered here"),
        }
    }
    let stats = logger.stats();
    assert_eq!(accepted, 1024);
    assert_eq!(stats.records_submitted, 100_000);
    assert_eq!(stats.records_dropped, dropped);
    assert_eq!(stats.buffer_overflow, dropped);
    assert!(stats.records_dropped >= 100_000 - 1024 - batch_size as u64);
    assert_eq!(stats.records_dropped, 100_000 - 1024);
    assert_eq!(stats.records_logged, 0);
}

#[test]
fn concurrent_producers_preserve_order_per_producer() {
    let mut logger =
        UltraLogger::with_config("s".to_string(), LogLevel::Info, 1 << 17, limits(64, 1_000_000), 0)
            .unwrap();
    let producers = 8u64;
    let per_producer = 10_000u64;
    let mut counters = vec![0u64; producers as usize];
    let mut turn = 12345u64;
    let mut left = producers * per_producer;
    while left > 0 {
        turn = turn.wrapping_mul(6364136223846793005).wrapping_add(1442695040888963407);
        let p = ((turn >> 33) % producers) as usize;
        if counters[p] == per_producer {
            continue;
        }
        let mut fields = StringMap::new();
        fields.insert("producer".to_string(), LogValue::Integer(p as i64));
        fields.insert("counter".to_string(), LogValue::Integer(counters[p] as i64));
        let r = logger.log_with_fields(LogLevel::Info, "tick".to_string(), fields);
        assert!(matches!(r, Submission::Accepted(_)));
        counters[p] += 1;
        left -= 1;
    }
    let mut seen = vec![0u64; producers as usize];
    let mut last_sequence = None;
    let mut total = 0u64;
    while let Some(batch) = logger.flush(0) {
        assert!(batch.len() >= 1 && batch.len() <= 64);
        for i in 0..batch.len() {
            let entry = batch.get(i);
            assert!(last_sequence < Some(entry.sequence));
            last_sequence = Some(entry.sequence);
            let p = match entry.fields.get("producer") {
                Some(LogValue::Integer(p)) => *p as usize,
                _ => panic!("no producer"),
            };
            let c = match entry.fields.get("counter") {
                Some(LogValue::Integer(c)) => *c as u64,
                _ => panic!("no counter"),
            };
            assert_eq!(c, seen[p], "producer {} out of order", p);
            seen[p] += 1;
            total += 1;
        }
        logger.complete(batch, true, 0);
    }
    assert_eq!(total, producers * per_producer);
    assert!(seen.iter().all(|n| *n == per_producer));
    assert!(logger.is_idle());
    assert!(accounted(&logger));
    assert_eq!(logger.stats().records_logged, total);
}

#[test]
fn retry_then_success() {
    let policy = RetryPolicy {
        retry_attempts: 3,
        retry_delay_ms: 10,
        backoff_factor: 2,
        max_retry_delay_ms: 1_000,
    };
    let mut logger =
        UltraLogger::with_config("s".to_string(), LogLevel::Info, 16, limits(1, 1_000), 0).unwrap();
    assert_eq!(logger.info("only".into()), Submission::Accepted(0));
    let batch = logger.pump(0).unwrap();

    let mut outcomes = vec![
        SendOutcome::Failed(LoggingError::NetworkError("reset".into())),
        SendOutcome::Failed(LoggingError::TimeoutError(50)),
        SendOutcome::Delivered,
    ]
    .into_iter();
    let mut state = RetryState::new(policy);
    let mut attempts = 0;
    let mut waits = Vec::new();
    let delivered = loop {
        attempts += 1;
        match state.on_outcome(outcomes.next().unwrap()) {
            RetryDecision::Done => break true,
            RetryDecision::RetryAfter(ms) => waits.push(ms),
            RetryDecision::Exhausted | RetryDecision::Fatal => break false,
        }
    };
    assert!(delivered);
    assert_eq!(attempts, 3);
    assert_eq!(waits, vec![10, 20]);
    assert_eq!(state.failures, 2);
    logger.complete(batch, delivered, state.failures as u64);
    let stats = logger.stats();
    assert_eq!(stats.transport_errors, 2);
    assert_eq!(stats.records_dropped, 0);
    assert_eq!(stats.records_logged, 1);
    assert_eq!(stats.batches_processed, 1);
    assert!(accounted(&logger));
}

#[test]
fn retries_run_out_and_fatal_errors_stop_at_once() {
    let policy = RetryPolicy {
        retry_attempts: 2,
        retry_delay_ms: 100,
        backoff_factor: 3,
        max_retry_delay_ms: 250,
    };
    let fail = || SendOutcome::Failed(LoggingError::TransportError("down".into()));
    let mut state = RetryState::new(policy);
    assert_eq!(state.on_outcome(fail()), RetryDecision::RetryAfter(100));
    assert_eq!(state.on_outcome(fail()), RetryDecision::RetryAfter(250));
    assert_eq!(state.on_outcome(fail()), RetryDecision::Exhausted);
    assert_eq!(state.failures, 3);

    let mut state = RetryState::new(policy);
    assert_eq!(
        state.on_outcome(SendOutcome::Failed(LoggingError::ConfigError("bad endpoint".into()))),
        RetryDecision::Fatal
    );
    assert_eq!(state.failures, 1);
    let mut state = RetryState::new(policy);
    assert_eq!(
        state.on_outcome(SendOutcome::Failed(LoggingError::IoError("pipe".into()))),
        RetryDecision::RetryAfter(100)
    );

    let mut logger =
        UltraLogger::with_config("s".to_string(), LogLevel::Info, 16, limits(2, 1_000), 0).unwrap();
    logger.info("a".into());
    logger.info("b".into());
    assert!(logger.pump(0).is_none());
    let batch = logger.pump(0).unwrap();
    logger.complete(batch, false, 3);
    let stats = logger.stats();
    assert_eq!(stats.records_dropped, 2);
    assert_eq!(stats.records_logged, 0);
    assert_eq!(stats.transport_errors, 3);
    assert_eq!(stats.batches_processed, 0);
    assert!(accounted(&logger));
}

#[test]
fn retry_delays_grow_and_stop_at_the_cap() {
    let policy = RetryPolicy {
        retry_attempts: 10,
        retry_delay_ms: 10,
        backoff_factor: 2,
        max_retry_delay_ms: 1_000,
    };
    let delays: Vec<u64> = (0..10).map(|i| policy.delay(i)).collect();
    assert_eq!(delays, vec![10, 20, 40, 80, 160, 320, 640, 1_000, 1_000, 1_000]);
    let flat = RetryPolicy { backoff_factor: 1, ..policy };
    assert_eq!(flat.delay(0), 10);
    assert_eq!(flat.delay(500), 10);
    let none = RetryPolicy { backoff_factor: 0, ..policy };
    assert_eq!(none.delay(0), 10);
    assert_eq!(none.delay(1), 0);
    assert_eq!(none.delay(7), 0);
    let capped = RetryPolicy { retry_delay_ms: 5_000, ..policy };
    assert_eq!(capped.delay(0), 1_000);
    let huge = RetryPolicy {
        retry_attempts: 1,
        retry_delay_ms: u64::MAX,
        backoff_factor: u64::MAX,
        max_retry_delay_ms: u64::MAX,
    };
    assert_eq!(huge.delay(3), u64::MAX);
    let huge_zero = RetryPolicy { backoff_factor: 0, ..huge };
    assert_eq!(huge_zero.delay(3), 0);
}

#[test]
fn shutdown_drain_bound() {
    let mut logger =
        UltraLogger::with_config("s".to_string(), LogLevel::Info, 16384, limits(64, 100), 0).unwrap();
    for i in 0..10_000u64 {
        assert_eq!(logger.log_at(LogLevel::Info, "r".into(), i), Submission::Accepted(i));
    }
    let mut delivered = 0u64;
    for _ in 0..40 {
        if let Some(batch) = logger.flush(0) {
            delivered += batch.len() as u64;
            logger.complete(batch, true, 0);
        }
    }
    let in_transit = logger.flush(0).unwrap();
    let dropped_at_shutdown = logger.shutdown(1);
    assert_eq!(delivered, 40 * 64);
    assert_eq!(delivered + dropped_at_shutdown, 10_000);
    assert_eq!(in_transit.len(), 64);
    let stats = logger.stats();
    assert_eq!(stats.records_submitted, 10_000);
    assert_eq!(stats.records_logged, delivered);
    assert_eq!(stats.records_dropped, dropped_at_shutdown);
    assert!(accounted(&logger));
    assert!(logger.is_idle());
    assert!(logger.pump(2).is_none());
    assert!(logger.flush(2).is_none());
    assert_eq!(logger.shutdown(3), 0);

    assert_eq!(logger.info("too late".into()), Submission::Dropped(10_000));
    assert!(accounted(&logger));
    assert_eq!(logger.stats().buffer_overflow, 0);
}

#[test]
fn records_over_the_memory_limit_are_dropped_and_counted() {
    let tight = BatchLimits { batch_size: 10, flush_interval_micros: 1_000_000, max_memory_bytes: 300 };
    let mut logger = UltraLogger::with_config("s".into(), LogLevel::Info, 16, tight, 0).unwrap();
    assert_eq!(logger.info("x".repeat(400)), Submission::Dropped(0));
    assert_eq!(logger.stats().records_dropped, 1);
    assert_eq!(logger.stats().buffer_overflow, 0);
    // each of these is estimated at 96 + 1 + 102 = 199 bytes: two do not fit together
    assert_eq!(logger.info("a".repeat(102)), Submission::Accepted(1));
    assert_eq!(logger.info("b".repeat(102)), Submission::Accepted(2));
    assert_eq!(logger.info("c".repeat(102)), Submission::Accepted(3));
    assert!(logger.pump(0).is_none());
    let first = logger.pump(0).expect("the second record does not fit beside the first");
    assert_eq!(first.len(), 1);
    assert_eq!(first.get(0).sequence, 1);
    assert!(first.size_bytes() <= 300);
    let second = logger.pump(0).unwrap();
    assert_eq!(second.get(0).sequence, 2);
    let third = logger.flush(0).unwrap();
    assert_eq!(third.get(0).sequence, 3);
    for b in [first, second, third] {
        logger.complete(b, true, 0);
    }
    assert!(accounted(&logger));
    assert_eq!(logger.stats().records_logged, 3);
}

#[test]
fn the_batcher_alone() {
    let tight = BatchLimits { batch_size: 3, flush_interval_micros: 50, max_memory_bytes: 1_000 };
    let mut batcher = Batcher::new(tight, 100, 1).unwrap();
    let entry = |seq, len: usize| LogEntry::at(0, LogLevel::Info, String::new(), "m".repeat(len), seq);
    assert!(matches!(batcher.tick(1_000), BatcherAction::Idle));
    assert!(matches!(batcher.flush(1_000), BatcherAction::Idle));
    match batcher.push(entry(0, 2_000), 100) {
        BatcherAction::Reject(e) => assert_eq!(e.sequence, 0),
        _ => panic!("a record over the limit is given back"),
    }
    assert_eq!(batcher.pending_len(), 0);
    assert!(matches!(batcher.push(entry(1, 1), 100), BatcherAction::Idle));
    assert!(matches!(batcher.push(entry(2, 1), 150), BatcherAction::Idle));
    assert!(matches!(batcher.tick(150), BatcherAction::Idle));
    match batcher.push(entry(3, 1), 150) {
        BatcherAction::Dispatch(b) => {
            assert_eq!(b.len(), 3);
            batcher.recycle(b);
        }
        _ => panic!("the third record fills the batch"),
    }
    assert_eq!(batcher.pending_len(), 0);
    assert!(matches!(batcher.push(entry(4, 1), 200), BatcherAction::Idle));
    match batcher.tick(201) {
        BatcherAction::Dispatch(b) => assert_eq!(b.len(), 1),
        _ => panic!("more than the interval has passed since the last flush"),
    }
    assert!(matches!(batcher.push(entry(5, 1), 10), BatcherAction::Idle));
    assert!(matches!(batcher.tick(0), BatcherAction::Idle));
    match batcher.flush(0) {
        BatcherAction::Dispatch(b) => assert_eq!(b.get(0).sequence, 5),
        _ => panic!("an explicit flush hands on what is there"),
    }
    assert_eq!(batcher.pending_len(), 0);
}

#[test]
fn counters_never_fall() {
    let mut logger =
        UltraLogger::with_config("s".to_string(), LogLevel::Warn, 4, limits(2, 10), 0).unwrap();
    let mut before = logger.stats();
    let mut now = 0;
    for step in 0..500u64 {
        match step % 7 {
            0 | 1 | 2 => {
                logger.log_at(LogLevel::Error, "e".into(), step);
            }
            3 => {
                logger.log_at(LogLevel::Debug, "d".into(), step);
            }
            4 | 5 => {
                now += 7;
                if let Some(batch) = logger.pump(now) {
                    logger.complete(batch, step % 3 == 0, step % 2);
                }
            }
            _ => {
                if let Some(batch) = logger.flush(now) {
                    logger.complete(batch, true, 0);
                }
                logger.stats().record_latency(5);
            }
        }
        let after = logger.stats();
        assert!(after.records_submitted >= before.records_submitted);
        assert!(after.records_logged >= before.records_logged);
        assert!(after.records_dropped >= before.records_dropped);
        assert!(after.batches_processed >= before.batches_processed);
        assert!(after.transport_errors >= before.transport_errors);
        assert!(after.buffer_overflow >= before.buffer_overflow);
        before = after;
    }
    while let Some(batch) = logger.flush(now) {
        logger.complete(batch, true, 0);
    }
    assert!(accounted(&logger));
    assert!(before.records_dropped > 0 && before.records_logged > 0);
    let mut stats = LoggerStats::new();
    stats.record_latency(u64::MAX);
    stats.record_latency(10);
    assert_eq!(stats.total_latency_ns, u64::MAX);
    assert_eq!(stats.average_latency_ns(), 0);
    stats.records_logged = 2;
    stats.total_latency_ns = 9;
    assert_eq!(stats.average_latency_ns(), 4);
}

#[test]
fn a_record_in_the_name_of_another_service() {
    let mut logger =
        UltraLogger::with_config("own".to_string(), LogLevel::Info, 4, limits(1, 1_000), 0).unwrap();
    assert_eq!(logger.log_simple(LogLevel::Debug, "risk", "quiet"), Submission::Filtered);
    assert_eq!(logger.log_simple(LogLevel::Risk, "risk", "limit reached"), Submission::Accepted(0));
    let batch = logger.pump(0).unwrap();
    assert_eq!(batch.get(0).service, "risk");
    assert_eq!(batch.get(0).message, "limit reached");
    assert_eq!(batch.get(0).level, LogLevel::Risk);
    logger.complete(batch, true, 0);
    assert!(logger.is_idle());
}

#[test]
fn a_logger_from_the_settings() {
    let mut settings = logging_engine::settings::UltraLoggerConfig::get_defaults(
        &logging_engine::settings::Environment::Production,
    );
    settings.buffer.batch_size = 2;
    let mut logger = UltraLogger::from_settings("svc".to_string(), &settings, 0).unwrap();
    assert_eq!(logger.service(), "svc");
    assert_eq!(logger.debug("below info".into()), Submission::Filtered);
    assert_eq!(logger.info("one".into()), Submission::Accepted(0));
    assert_eq!(logger.error("two".into()), Submission::Accepted(1));
    assert!(logger.pump(0).is_none());
    assert_eq!(logger.pump(0).unwrap().len(), 2);

    settings.level = "verbose".to_string();
    assert!(matches!(
        UltraLogger::from_settings("svc".to_string(), &settings, 0),
        Err(LoggingError::InvalidLogLevel(_))
    ));
    settings.level = "warn".to_string();
    settings.buffer.ring_buffer_size = 1000;
    assert!(matches!(
        UltraLogger::from_settings("svc".to_string(), &settings, 0),
        Err(LoggingError::BufferError(_))
    ));
}

#[test]
fn the_states_of_a_logger() {
    let mut logger =
        UltraLogger::with_config("s".to_string(), LogLevel::Info, 4, limits(4, 1_000), 0).unwrap();
    assert_eq!(logger.status(), ServiceStatus::Healthy);
    logger.degrade();
    assert_eq!(logger.status(), ServiceStatus::Degraded);
    logger.degrade();
    assert_eq!(logger.status(), ServiceStatus::Degraded);
    assert_eq!(logger.info("still taken".into()), Submission::Accepted(0));
    let batch = logger.flush(0).expect("a flush changes no state");
    assert_eq!(logger.status(), ServiceStatus::Degraded);
    logger.complete(batch, true, 0);
    logger.begin_shutdown();
    assert_eq!(logger.status(), ServiceStatus::Stopping);
    assert_eq!(logger.info("taken while draining".into()), Submission::Accepted(1));
    logger.degrade();
    assert_eq!(logger.status(), ServiceStatus::Stopping);
    assert_eq!(logger.shutdown(5), 1);
    assert_eq!(logger.status(), ServiceStatus::Stopped);
    logger.degrade();
    logger.begin_shutdown();
    assert_eq!(logger.status(), ServiceStatus::Stopped);
    assert!(accounted(&logger));

    let mut healthy =
        UltraLogger::with_config("s".to_string(), LogLevel::Info, 4, limits(4, 1_000), 0).unwrap();
    healthy.begin_shutdown();
    assert_eq!(healthy.status(), ServiceStatus::Stopping);
    let mut direct = UltraLogger::new("s".to_string());
    assert_eq!(direct.shutdown(0), 0);
    assert_eq!(direct.status(), ServiceStatus::Stopped);
}

#[test]
fn a_submission_moves_no_other_counter() {
    let mut logger =
        UltraLogger::with_config("s".to_string(), LogLevel::Info, 2, limits(8, 1_000), 0).unwrap();
    let zero = LoggerStats::new();
    assert_eq!(UltraLogger::new("s".to_string()).stats(), zero);
    assert_eq!(logger.debug("filtered".into()), Submission::Filtered);
    assert_eq!(logger.stats(), zero);
    assert_eq!(logger.info("a".into()), Submission::Accepted(0));
    assert_eq!(logger.stats(), LoggerStats { records_submitted: 1, ..zero });
    assert_eq!(logger.warn("b".into()), Submission::Accepted(1));
    assert_eq!(logger.error("c".into()), Submission::Dropped(2));
    assert_eq!(
        logger.stats(),
        LoggerStats { records_submitted: 3, records_dropped: 1, buffer_overflow: 1, ..zero }
    );
}

#[test]
fn pump_hands_a_batch_on_when_the_interval_has_passed() {
    let mut logger =
        UltraLogger::with_config("s".to_string(), LogLevel::Info, 8, limits(100, 50), 1_000).unwrap();
    assert!(logger.pump(9_999).is_none(), "an empty batch is never handed on");
    logger.info("a".into());
    logger.info("b".into());
    let first = logger.pump(10_000).expect("the first record comes long after the last flush");
    assert_eq!(first.len(), 1);
    assert!(logger.pump(10_050).is_none(), "the second record comes within the interval");
    assert!(logger.pump(10_050).is_none(), "fifty microseconds have passed, not more");
    let second = logger.pump(10_051).expect("more than the interval has passed");
    assert_eq!(second.len(), 1);
    assert_eq!(second.get(0).message, "b");
    logger.complete(first, true, 0);
    logger.complete(second, true, 0);
    assert!(logger.is_idle());
}
