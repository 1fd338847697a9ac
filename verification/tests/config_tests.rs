use logging_engine::aggregator_config::AggregatorConfig;
use logging_engine::buffer::is_power_of_two;
use logging_engine::config::{ConnectionConfig, LoggerConfig, TransportConfig};
use logging_engine::engine_config::LoggingEngineConfig;
use logging_engine::envparse::{
    duration_from_millis_env, duration_from_secs_env, env_bool_or_default, env_string_or_default,
    env_var_or_default, parse_index_list, parse_unsigned,
};
use logging_engine::error::LoggingError;
use logging_engine::host::{HealthStatus, LoggingEngineBuilder, LoggingEngineHost};
use logging_engine::lifecycle::{advance, LifecycleEvent, ServiceStatus};
use logging_engine::metrics_config::MetricsConfig;
use logging_engine::settings::{
    parse_cpu_affinity, BufferConfig, ConfigLoader, Environment, LogLevel, Transport,
    UltraLoggerConfig,
};
use logging_engine::string_map::StringMap;
use std::time::Duration;

fn vars(pairs: &[(&str, &str)]) -> StringMap<String> {
    let mut map = StringMap::new();
    for (k, v) in pairs {
        map.insert(k.to_string(), v.to_string());
    }
    map
}

#[test]
fn test_environment_from_str() {
    assert_eq!(Environment::from_str("production"), Environment::Production);
    assert_eq!(Environment::from_str("staging"), Environment::Staging);
    assert_eq!(Environment::from_str("testing"), Environment::Testing);
    assert_eq!(Environment::from_str("development"), Environment::Development);
    assert_eq!(Environment::from_str("invalid"), Environment::Development);
}

#[test]
fn test_log_level_from_str() {
    assert_eq!(LogLevel::from_str("debug"), LogLevel::Debug);
    assert_eq!(LogLevel::from_str("info"), LogLevel::Info);
    assert_eq!(LogLevel::from_str("warn"), LogLevel::Warn);
    assert_eq!(LogLevel::from_str("error"), LogLevel::Error);
    assert_eq!(LogLevel::from_str("invalid"), LogLevel::Info);
}

#[test]
fn names_are_read_in_any_case() {
    assert_eq!(Environment::from_str("PROD"), Environment::Production);
    assert_eq!(Environment::from_str("Stage"), Environment::Staging);
    assert_eq!(Environment::from_str("TEST"), Environment::Testing);
    assert_eq!(Environment::from_str("dev"), Environment::Development);
    assert_eq!(LogLevel::from_str("WARNING"), LogLevel::Warn);
    assert_eq!(LogLevel::from_str("Error"), LogLevel::Error);
}

#[test]
fn test_buffer_config_power_of_two() {
    assert!(16384_usize.is_power_of_two());
    assert!(65536_usize.is_power_of_two());
    assert!(!100_usize.is_power_of_two());
    assert!(is_power_of_two(16384));
    assert!(is_power_of_two(65536));
    assert!(!is_power_of_two(100));
    assert!(!is_power_of_two(0));
    assert!(is_power_of_two(1));
}

#[test]
fn test_aggregator_config_defaults() {
    let prod_config = AggregatorConfig::get_defaults(&Environment::Production);
    assert_eq!(prod_config.batch_size, 10000);
    assert_eq!(prod_config.batch_timeout_millis, 50);
    assert_eq!(prod_config.get_memory_limit_mb(), 500);

    let dev_config = AggregatorConfig::get_defaults(&Environment::Development);
    assert_eq!(dev_config.batch_size, 1000);
    assert_eq!(dev_config.transport_type, "console");
    assert_eq!(dev_config.get_memory_limit_mb(), 100);
}

#[test]
fn test_aggregator_config_validation() {
    let mut config = AggregatorConfig::get_defaults(&Environment::Development);
    assert!(config.validate().is_ok());

    config.batch_size = 0;
    assert!(config.validate().is_err());

    config.batch_size = 1000;
    config.redis_url = String::new();
    assert!(config.validate().is_err());
}

#[test]
fn test_aggregator_helper_methods() {
    let config = AggregatorConfig::get_defaults(&Environment::Production);
    assert_eq!(Duration::from_millis(config.get_batch_timeout()), Duration::from_millis(50));
    assert_eq!(config.get_transport(), Transport::Redis);
    assert_eq!(config.get_memory_limit_mb(), 500);
    assert_eq!(config.get_connection_timeout(), 5000);
    assert_eq!(config.get_retry_delay(), 100);
}

#[test]
fn aggregator_transport_falls_back_to_console() {
    let mut config = AggregatorConfig::get_defaults(&Environment::Production);
    config.transport_type = "FILE".to_string();
    assert_eq!(config.get_transport(), Transport::File);
    config.transport_type = "network".to_string();
    assert_eq!(config.get_transport(), Transport::Network);
    config.transport_type = "pigeon".to_string();
    assert_eq!(config.get_transport(), Transport::Console);
}

#[test]
fn test_logging_engine_config_defaults() {
    let config = LoggingEngineConfig::get_defaults(&Environment::Development);
    assert_eq!(config.service_name, "logging-engine");
    assert_eq!(config.environment, "development");
    assert_eq!(config.log_level, "debug");
    assert_eq!(config.shutdown_timeout_secs, 30);
}

#[test]
fn test_logging_engine_config_production() {
    let config = LoggingEngineConfig::get_defaults(&Environment::Production);
    assert_eq!(config.log_level, "info");
    assert_eq!(config.enable_performance_monitoring, true);
    assert_eq!(config.enable_distributed_tracing, true);
    assert_eq!(config.shutdown_timeout_secs, 60);
}

#[test]
fn test_config_validation() {
    let mut config = LoggingEngineConfig::get_defaults(&Environment::Development);
    assert!(config.validate().is_ok());

    config.service_name = String::new();
    assert!(config.validate().is_err());

    config.service_name = "test".to_string();
    config.shutdown_timeout_secs = 0;
    assert!(config.validate().is_err());
}

#[test]
fn test_helper_methods() {
    let config = LoggingEngineConfig::get_defaults(&Environment::Production);
    assert_eq!(config.get_environment(), Environment::Production);
    assert_eq!(config.get_log_level(), LogLevel::Info);
    assert_eq!(Duration::from_secs(config.get_shutdown_timeout()), Duration::from_secs(60));
}

#[test]
fn test_metrics_config_defaults() {
    let prod_config = MetricsConfig::get_defaults(&Environment::Production);
    assert_eq!(prod_config.buffer_size, 16384);
    assert_eq!(prod_config.flush_interval_millis, 100);
    assert_eq!(prod_config.high_precision, true);
    assert_eq!(prod_config.prometheus_enabled, true);

    let dev_config = MetricsConfig::get_defaults(&Environment::Development);
    assert_eq!(dev_config.buffer_size, 4096);
    assert_eq!(dev_config.high_precision, false);
    assert_eq!(dev_config.prometheus_enabled, false);
}

#[test]
fn test_metrics_config_validation() {
    let mut config = MetricsConfig::get_defaults(&Environment::Development);
    assert!(config.validate().is_ok());

    config.buffer_size = 0;
    assert!(config.validate().is_err());

    config.buffer_size = 4096;
    config.flush_interval_millis = 0;
    assert!(config.validate().is_err());
}

#[test]
fn test_metrics_helper_methods() {
    let config = MetricsConfig::get_defaults(&Environment::Production);
    assert_eq!(Duration::from_millis(config.get_flush_interval()), Duration::from_millis(100));
    assert_eq!(Duration::from_secs(config.get_retention_duration()), Duration::from_secs(86400));
    assert_eq!(config.get_buffer_size_kb(), 16);
    assert_eq!(config.get_export_interval(), 30);
}

#[test]
fn metrics_bucket_bounds_by_environment() {
    let prod = MetricsConfig::get_defaults(&Environment::Production);
    assert_eq!(
        prod.histogram_buckets_micros,
        vec![
            1_000, 5_000, 10_000, 25_000, 50_000, 100_000, 250_000, 500_000, 1_000_000, 2_500_000,
            5_000_000, 10_000_000
        ]
    );
    let test = MetricsConfig::get_defaults(&Environment::Testing);
    assert_eq!(
        test.histogram_buckets_micros,
        vec![1_000, 10_000, 100_000, 1_000_000, 10_000_000]
    );
}

#[test]
fn test_ultra_logger_config_defaults() {
    let prod_config = UltraLoggerConfig::get_defaults(&Environment::Production);
    assert_eq!(prod_config.buffer.ring_buffer_size, 65536);
    assert_eq!(prod_config.buffer.batch_size, 64);
    assert_eq!(prod_config.performance.simd_enabled, true);
    assert_eq!(prod_config.compression.enabled, true);

    let dev_config = UltraLoggerConfig::get_defaults(&Environment::Development);
    assert_eq!(dev_config.buffer.ring_buffer_size, 16384);
    assert_eq!(dev_config.performance.simd_enabled, false);
    assert_eq!(dev_config.compression.enabled, false);
}

#[test]
fn test_ultra_logger_config_validation() {
    let mut config = UltraLoggerConfig::get_defaults(&Environment::Development);
    assert!(config.validate().is_ok());

    config.buffer.ring_buffer_size = 100; // Not power of 2
    assert!(config.validate().is_err());

    config.buffer.ring_buffer_size = 16384;
    config.buffer.batch_size = 0;
    assert!(config.validate().is_err());

    config.buffer.batch_size = 16;
    config.tracing.sampling_rate_permille = 1500; // Invalid range
    assert!(config.validate().is_err());
}

#[test]
fn ultra_logger_config_rejects_each_broken_rule() {
    let base = || UltraLoggerConfig::get_defaults(&Environment::Staging);
    assert!(base().validate().is_ok());

    let mut c = base();
    c.buffer.max_memory_bytes = 0;
    assert!(matches!(c.validate(), Err(LoggingError::ConfigError(_))));

    let mut c = base();
    c.performance.worker_threads = 0;
    assert!(matches!(c.validate(), Err(LoggingError::ConfigError(_))));

    let mut c = base();
    c.compression.level = 0;
    assert!(matches!(c.validate(), Err(LoggingError::ConfigError(_))));
    c.compression.level = 10;
    assert!(matches!(c.validate(), Err(LoggingError::ConfigError(_))));
    c.compression.level = 9;
    assert!(c.validate().is_ok());

    let mut c = base();
    c.transport.transport_type = String::new();
    assert!(matches!(c.validate(), Err(LoggingError::ConfigError(_))));

    let mut c = base();
    c.tracing.sampling_rate_permille = 1000;
    assert!(c.validate().is_ok());
}

#[test]
fn ultra_logger_defaults_in_full() {
    let staging = UltraLoggerConfig::get_defaults(&Environment::Staging);
    assert_eq!(staging.level, "info");
    assert_eq!(
        staging.buffer,
        BufferConfig {
            ring_buffer_size: 32768,
            batch_size: 32,
            flush_interval_micros: 200,
            max_memory_bytes: 128 * 1024 * 1024,
            pre_allocate: true,
        }
    );
    assert_eq!(staging.transport.transport_type, "redis");
    assert_eq!(staging.transport.pool_size, 500);
    assert_eq!(staging.transport.timeout_millis, 3000);
    assert_eq!(staging.transport.retry_attempts, 3);
    assert_eq!(staging.transport.retry_delay_millis, 100);
    assert_eq!(staging.compression.algorithm, "lz4");
    assert_eq!(staging.compression.level, 1);
    assert_eq!(staging.compression.min_size_bytes, 1024);
    assert_eq!(staging.performance.worker_threads, 4);
    assert_eq!(staging.performance.cpu_affinity, None);
    assert_eq!(staging.outputs.len(), 1);
    assert_eq!(staging.outputs[0].output_type, "console");
    assert_eq!(staging.outputs[0].destination, "stdout");
    assert_eq!(staging.outputs[0].format, "json");
    assert_eq!(staging.outputs[0].buffer_size, 8192);
    assert!(staging.metrics.enabled);
    assert!(!staging.metrics.histogram_enabled);
    assert_eq!(staging.tracing.sampling_rate_permille, 500);
    assert_eq!(
        staging.tracing.jaeger_endpoint.as_deref(),
        Some("http://jaeger.staging.svc.cluster.local:14268")
    );
    let testing = UltraLoggerConfig::get_defaults(&Environment::Testing);
    assert_eq!(testing.level, "debug");
    assert_eq!(testing.buffer.flush_interval_micros, 500);
    assert_eq!(testing.buffer.max_memory_bytes, 64 * 1024 * 1024);
    assert_eq!(testing.tracing.jaeger_endpoint, None);
    assert_eq!(testing.tracing.sampling_rate_permille, 1000);
}

#[test]
fn settings_are_read_from_variables() {
    let env = vars(&[
        ("LOGGING_ENVIRONMENT", "production"),
        ("ULTRA_RING_BUFFER_SIZE", "4096"),
        ("ULTRA_BATCH_SIZE", "not a number"),
        ("ULTRA_PRE_ALLOCATE", "OFF"),
        ("ULTRA_TRANSPORT_TYPE", "tcp"),
        ("ULTRA_COMPRESSION_LEVEL", "300"),
        ("ULTRA_LOG_LEVEL", "warn"),
    ]);
    let config = UltraLoggerConfig::from_env(&env).unwrap();
    assert_eq!(config.level, "warn");
    assert_eq!(config.buffer.ring_buffer_size, 4096);
    assert_eq!(config.buffer.batch_size, 64);
    assert_eq!(config.buffer.pre_allocate, false);
    assert_eq!(config.transport.transport_type, "tcp");
    assert_eq!(config.transport.retry_attempts, 5);
    assert_eq!(config.compression.level, 1);
    assert_eq!(config.performance.worker_threads, 8);
    assert_eq!(config.outputs[0].output_type, "console");

    let none = vars(&[]);
    let config = UltraLoggerConfig::from_env(&none).unwrap();
    assert_eq!(config.level, "debug");
    assert_eq!(config.buffer.ring_buffer_size, 16384);

    let agg = AggregatorConfig::from_env(&vars(&[("LOG_BATCH_SIZE", "7"), ("REDIS_URL", "redis://x")]))
        .unwrap();
    assert_eq!(agg.batch_size, 7);
    assert_eq!(agg.redis_url, "redis://x");
    assert_eq!(agg.transport_type, "console");

    let met = MetricsConfig::from_env(&vars(&[("PROMETHEUS_PORT", "70000"), ("METRICS_BATCH_SIZE", "+12")]))
        .unwrap();
    assert_eq!(met.prometheus_port, 9091);
    assert_eq!(met.batch_size, 12);

    let eng = LoggingEngineConfig::from_env(&vars(&[
        ("LOGGING_ENVIRONMENT", "staging"),
        ("SHUTDOWN_TIMEOUT_SECS", "5"),
        ("ENABLE_DISTRIBUTED_TRACING", "no"),
    ]))
    .unwrap();
    assert_eq!(eng.environment, "staging");
    assert_eq!(eng.shutdown_timeout_secs, 5);
    assert_eq!(eng.enable_distributed_tracing, false);
    assert_eq!(eng.enable_performance_monitoring, true);
    assert_eq!(eng.aggregator.batch_size, 5000);
    assert_eq!(eng.ultra_logger.buffer.batch_size, 32);
}

#[test]
fn variable_helpers() {
    let env = vars(&[
        ("TEST_VAR", "42"),
        ("TEST_BOOL_TRUE", "true"),
        ("TEST_BOOL_FALSE", "false"),
        ("TEST_BOOL_INVALID", "maybe"),
        ("TEST_BOOL_YES", "YES"),
        ("TEST_BOOL_ZERO", "0"),
        ("TEST_TEXT", "hello"),
    ]);
    assert_eq!(env_var_or_default(&env, "TEST_VAR", 0), 42);
    assert_eq!(env_var_or_default(&env, "NONEXISTENT_VAR", 100), 100);
    assert_eq!(env_bool_or_default(&env, "TEST_BOOL_TRUE", false), true);
    assert_eq!(env_bool_or_default(&env, "TEST_BOOL_FALSE", true), false);
    assert_eq!(env_bool_or_default(&env, "TEST_BOOL_INVALID", false), false);
    assert_eq!(env_bool_or_default(&env, "NONEXISTENT_BOOL", true), true);
    assert_eq!(env_bool_or_default(&env, "TEST_BOOL_YES", false), true);
    assert_eq!(env_bool_or_default(&env, "TEST_BOOL_ZERO", true), false);
    assert_eq!(env_string_or_default(&env, "TEST_TEXT", "x"), "hello");
    assert_eq!(env_string_or_default(&env, "MISSING", "x"), "x");
    assert_eq!(duration_from_millis_env(&env, "TEST_VAR", 1), 42);
    assert_eq!(duration_from_secs_env(&env, "MISSING", 9), 9);
}

#[test]
fn unsigned_numbers_are_parsed_as_std_parses_them() {
    let cases = [
        "0", "7", "42", "+42", "007", "18446744073709551615", "18446744073709551616", "", "+",
        "-1", " 1", "1 ", "1_000", "12a", "99999999999999999999999",
    ];
    for text in cases {
        assert_eq!(parse_unsigned(text.as_bytes(), u64::MAX), text.parse::<u64>().ok(), "{}", text);
        assert_eq!(
            parse_unsigned(text.as_bytes(), 255),
            text.parse::<u8>().ok().map(|n| n as u64),
            "{}",
            text
        );
    }
    assert_eq!(parse_unsigned(b"255", 255), Some(255));
    assert_eq!(parse_unsigned(b"256", 255), None);
}

#[test]
fn logger_config_defaults_and_validation() {
    let config = LoggerConfig::default();
    assert_eq!(config.level, "info");
    assert_eq!(config.transport.transport_type, "stdout");
    assert_eq!(config.transport.connection.host, "localhost");
    assert_eq!(config.transport.connection.port, 9200);
    assert!(config.transport.connection.username.is_none());
    assert!(config.transport.connection.password.is_none());
    assert!(config.transport.connection.options.is_empty());
    assert!(config.validate().is_ok());

    let mut bad = LoggerConfig::default();
    bad.level = "loud".to_string();
    assert!(matches!(bad.validate(), Err(LoggingError::InvalidLogLevel(_))));

    let mut bad = LoggerConfig::default();
    bad.transport.transport_type = "pigeon".to_string();
    assert!(matches!(bad.validate(), Err(LoggingError::TransportError(_))));

    let mut bad = LoggerConfig::default();
    bad.transport = TransportConfig {
        transport_type: "tcp".to_string(),
        connection: ConnectionConfig { host: String::new(), ..ConnectionConfig::default() },
    };
    assert!(matches!(bad.validate(), Err(LoggingError::ConfigError(_))));
    bad.transport.connection.host = "collector".to_string();
    assert!(bad.validate().is_ok());
    bad.transport.connection.port = 0;
    assert!(matches!(bad.validate(), Err(LoggingError::ConfigError(_))));
}

#[test]
fn test_builder_pattern() {
    let host = LoggingEngineBuilder::new()
        .service_name("test-logging-engine")
        .environment(Environment::Testing)
        .log_level(LogLevel::Debug)
        .enable_performance_monitoring(false)
        .build();

    assert_eq!(host.service_name(), "test-logging-engine");
    assert_eq!(host.environment(), Environment::Testing);
}

#[test]
fn host_lifecycle_and_health() {
    let mut host = LoggingEngineHost::new();
    assert_eq!(host.get_status(), ServiceStatus::Stopped);
    assert_eq!(
        host.health_check().unwrap(),
        HealthStatus {
            status: ServiceStatus::Stopped,
            aggregator_healthy: false,
            metrics_collector_healthy: false,
            overall_healthy: false,
        }
    );
    host.start().unwrap();
    assert_eq!(host.get_status(), ServiceStatus::Healthy);
    assert!(host.health_check().unwrap().overall_healthy);
    assert_eq!(
        host.startup_summary(),
        "Logging Engine Configuration - Environment: development, Services: [LogAggregator, MetricsCollector], Tracing: Enabled"
    );
    host.shutdown().unwrap();
    assert_eq!(host.get_status(), ServiceStatus::Stopped);
    assert!(!host.health_check().unwrap().overall_healthy);

    let mut quiet = LoggingEngineBuilder::new()
        .enable_performance_monitoring(false)
        .enable_distributed_tracing(false)
        .shutdown_timeout(5)
        .build();
    quiet.start().unwrap();
    let health = quiet.health_check().unwrap();
    assert!(health.aggregator_healthy && health.metrics_collector_healthy && health.overall_healthy);
    assert_eq!(
        quiet.startup_summary(),
        "Logging Engine Configuration - Environment: development, Services: [LogAggregator], Tracing: Disabled"
    );
}

#[test]
fn lifecycle_transitions() {
    let cases = [
        (ServiceStatus::Stopped, LifecycleEvent::Start, Some(ServiceStatus::Starting)),
        (ServiceStatus::Starting, LifecycleEvent::Started, Some(ServiceStatus::Healthy)),
        (ServiceStatus::Healthy, LifecycleEvent::TransportFailed, Some(ServiceStatus::Degraded)),
        (ServiceStatus::Degraded, LifecycleEvent::TransportFailed, Some(ServiceStatus::Degraded)),
        (ServiceStatus::Degraded, LifecycleEvent::Shutdown, Some(ServiceStatus::Stopping)),
        (ServiceStatus::Healthy, LifecycleEvent::Shutdown, Some(ServiceStatus::Stopping)),
        (ServiceStatus::Starting, LifecycleEvent::Shutdown, Some(ServiceStatus::Stopping)),
        (ServiceStatus::Unhealthy, LifecycleEvent::Shutdown, Some(ServiceStatus::Stopping)),
        (ServiceStatus::Stopping, LifecycleEvent::Drained, Some(ServiceStatus::Stopped)),
        (ServiceStatus::Stopped, LifecycleEvent::Shutdown, None),
        (ServiceStatus::Stopped, LifecycleEvent::Drained, None),
        (ServiceStatus::Healthy, LifecycleEvent::Start, None),
        (ServiceStatus::Stopping, LifecycleEvent::Start, None),
        (ServiceStatus::Stopping, LifecycleEvent::TransportFailed, None),
    ];
    for (status, event, expected) in cases {
        assert_eq!(advance(status, event), expected, "{:?} on {:?}", event, status);
    }
}

#[test]
fn test_cpu_affinity_parsing() {
    let set = vars(&[("ULTRA_CPU_AFFINITY", "0,1,2,3")]);
    let affinity = parse_cpu_affinity(&set);
    assert_eq!(affinity, Some(vec![0, 1, 2, 3]));

    let unset = vars(&[]);
    let no_affinity = parse_cpu_affinity(&unset);
    assert_eq!(no_affinity, None);

    let config = UltraLoggerConfig::from_env(&vars(&[("ULTRA_CPU_AFFINITY", " 4 , 6 ")])).unwrap();
    assert_eq!(config.performance.cpu_affinity, Some(vec![4, 6]));
    let config = UltraLoggerConfig::from_env(&vars(&[("ULTRA_CPU_AFFINITY", "4,six")])).unwrap();
    assert_eq!(config.performance.cpu_affinity, None);
}

#[test]
fn lists_of_numbers_are_parsed_as_std_parses_them() {
    let cases = [
        "0", "0,1,2,3", " 1 , 2 ", "\t7\n,\r8", "+1,+2", "", ",", "1,", ",1", "1,,2", "1, ,2", "a",
        "1,a", "1 2", "1,2 3", "18446744073709551616", "-1", "  ", "12,007, 9",
    ];
    for text in cases {
        let expected: Option<Vec<usize>> = text
            .split(',')
            .map(|item| item.trim().parse::<usize>())
            .collect::<Result<Vec<_>, _>>()
            .ok();
        assert_eq!(parse_index_list(text.as_bytes()), expected, "{:?}", text);
    }
}

#[test]
fn settings_are_handed_to_the_services() {
    let settings = AggregatorConfig::get_defaults(&Environment::Staging);
    let for_service = settings.to_log_aggregator_config();
    assert_eq!(for_service.batch_size, 5000);
    assert_eq!(for_service.batch_timeout_millis, 100);
    assert_eq!(for_service.max_memory_usage, 250 * 1024 * 1024);
    assert!(for_service.filters.is_empty());
    match for_service.output_transport {
        logging_engine::aggregator::Transport::Redis { url, channel } => {
            assert_eq!(url, "redis://redis.staging.svc.cluster.local:6379");
            assert_eq!(channel, "logs:staging");
        }
        _ => panic!("the batches go to Redis"),
    }
    let settings = MetricsConfig::get_defaults(&Environment::Production);
    assert_eq!(
        settings.to_metrics_collector_config(),
        logging_engine::collector::MetricsConfig {
            buffer_size: 16384,
            flush_interval_millis: 100,
            retention_time_secs: 86400,
            high_precision: true,
            max_concurrent: 1000,
        }
    );
}

#[test]
fn the_engine_settings_hand_out_copies() {
    let mut engine = LoggingEngineConfig::get_defaults(&Environment::Staging);
    engine.ultra_logger.performance.cpu_affinity = Some(vec![1, 3]);
    let aggregator = engine.to_aggregator_config();
    assert_eq!(aggregator.batch_size, 5000);
    assert_eq!(aggregator.redis_url, engine.aggregator.redis_url);
    assert_eq!(aggregator.redis_channel, "logs:staging");
    assert_eq!(aggregator.transport_type, "redis");
    assert_eq!(aggregator.retry_delay_millis, 200);
    let metrics = engine.to_metrics_config();
    assert_eq!(metrics.buffer_size, 8192);
    assert_eq!(metrics.prometheus_port, 9090);
    assert_eq!(metrics.histogram_buckets_micros, engine.metrics.histogram_buckets_micros);
    let logger = engine.to_ultra_logger_config();
    assert_eq!(logger.level, "info");
    assert_eq!(logger.buffer, engine.ultra_logger.buffer);
    assert_eq!(logger.transport.transport_type, "redis");
    assert_eq!(logger.transport.retry_attempts, 3);
    assert_eq!(logger.compression.algorithm, "lz4");
    assert_eq!(logger.performance.cpu_affinity, Some(vec![1, 3]));
    assert_eq!(logger.outputs.len(), 1);
    assert_eq!(logger.outputs[0].destination, "stdout");
    assert_eq!(logger.metrics, engine.ultra_logger.metrics);
    assert_eq!(logger.tracing.service_name, "ultra-logger");
    assert_eq!(
        logger.tracing.jaeger_endpoint.as_deref(),
        Some("http://jaeger.staging.svc.cluster.local:14268")
    );
}
