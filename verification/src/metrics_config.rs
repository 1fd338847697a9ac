//! The settings of the metrics collector.

use crate::envparse::{
    env_bool_or_default, env_string_or_default, env_u16_or_default, env_usize_or_default,
    env_var_or_default, number_or, switch_or, text_or,
};
use crate::error::LoggingError;
use crate::level::lowercased;
use crate::settings::{environment_named, ConfigLoader, Environment};
use crate::string_map::StringMap;
use vstd::prelude::*;
use vstd::string::*;

verus! {

/// The settings of the metrics collector.
pub struct MetricsConfig {
    pub buffer_size: usize,
    pub flush_interval_millis: u64,
    pub high_precision: bool,
    pub max_concurrent: usize,
    pub batch_size: usize,
    pub retention_duration_secs: u64,
    pub compression_enabled: bool,
    pub export_interval_secs: u64,
    pub prometheus_enabled: bool,
    pub prometheus_port: u16,
    /// The upper bounds of the histogram buckets, ascending, in microseconds.
    pub histogram_buckets_micros: Vec<u64>,
}

/// The settings without the bucket bounds.
#[derive(Debug, Clone, Copy, PartialEq, Eq, Structural)]
pub struct MetricsNumbers {
    pub buffer_size: usize,
    pub flush_interval_millis: u64,
    pub high_precision: bool,
    pub max_concurrent: usize,
    pub batch_size: usize,
    pub retention_duration_secs: u64,
    pub compression_enabled: bool,
    pub export_interval_secs: u64,
    pub prometheus_enabled: bool,
    pub prometheus_port: u16,
}

/// The settings that `env` starts from.
pub open spec fn default_numbers(env: Environment) -> MetricsNumbers {
    match env {
        Environment::Production => MetricsNumbers {
            buffer_size: 16384,
            flush_interval_millis: 100,
            high_precision: true,
            max_concurrent: 1000,
            batch_size: 5000,
            retention_duration_secs: 86400,
            compression_enabled: true,
            export_interval_secs: 30,
            prometheus_enabled: true,
            prometheus_port: 9090,
        },
        Environment::Staging => MetricsNumbers {
            buffer_size: 8192,
            flush_interval_millis: 200,
            high_precision: true,
            max_concurrent: 500,
            batch_size: 2500,
            retention_duration_secs: 43200,
            compression_enabled: true,
            export_interval_secs: 60,
            prometheus_enabled: true,
            prometheus_port: 9090,
        },
        _ => MetricsNumbers {
            buffer_size: 4096,
            flush_interval_millis: 500,
            high_precision: false,
            max_concurrent: 100,
            batch_size: 1000,
            retention_duration_secs: 3600,
            compression_enabled: false,
            export_interval_secs: 120,
            prometheus_enabled: false,
            prometheus_port: 9091,
        },
    }
}

/// The twelve bucket bounds of a live deployment, from one millisecond to ten seconds.
pub open spec fn fine_buckets() -> Seq<u64> {
    seq![
        1000u64,
        5000u64,
        10000u64,
        25000u64,
        50000u64,
        100000u64,
        250000u64,
        500000u64,
        1000000u64,
        2500000u64,
        5000000u64,
        10000000u64,
    ]
}

/// The five bucket bounds of a test or development deployment.
pub open spec fn coarse_buckets() -> Seq<u64> {
    seq![1000u64, 10000u64, 100000u64, 1000000u64, 10000000u64]
}

/// The bucket bounds that `env` starts from.
pub open spec fn default_buckets(env: Environment) -> Seq<u64> {
    if env.is_live() {
        fine_buckets()
    } else {
        coarse_buckets()
    }
}

/// The twelve bucket bounds of a live deployment.
pub fn fine_bucket_bounds() -> (r: Vec<u64>)
    ensures
        r@ == fine_buckets(),
{
    let r = vec![
        1000u64,
        5000u64,
        10000u64,
        25000u64,
        50000u64,
        100000u64,
        250000u64,
        500000u64,
        1000000u64,
        2500000u64,
        5000000u64,
        10000000u64,
    ];
    assert(r@ =~= fine_buckets());
    r
}

/// The five bucket bounds of a test or development deployment.
pub fn coarse_bucket_bounds() -> (r: Vec<u64>)
    ensures
        r@ == coarse_buckets(),
{
    let r = vec![1000u64, 10000u64, 100000u64, 1000000u64, 10000000u64];
    assert(r@ =~= coarse_buckets());
    r
}

impl MetricsConfig {
    /// The settings without the bucket bounds.
    pub open spec fn numbers(&self) -> MetricsNumbers {
        MetricsNumbers {
            buffer_size: self.buffer_size,
            flush_interval_millis: self.flush_interval_millis,
            high_precision: self.high_precision,
            max_concurrent: self.max_concurrent,
            batch_size: self.batch_size,
            retention_duration_secs: self.retention_duration_secs,
            compression_enabled: self.compression_enabled,
            export_interval_secs: self.export_interval_secs,
            prometheus_enabled: self.prometheus_enabled,
            prometheus_port: self.prometheus_port,
        }
    }

    /// The settings as the collector takes them.
    pub fn to_metrics_collector_config(&self) -> (r: crate::collector::MetricsConfig)
        ensures
            r == (crate::collector::MetricsConfig {
                buffer_size: self.buffer_size,
                flush_interval_millis: self.flush_interval_millis,
                retention_time_secs: self.retention_duration_secs,
                high_precision: self.high_precision,
                max_concurrent: self.max_concurrent,
            }),
    {
        crate::collector::MetricsConfig {
            buffer_size: self.buffer_size,
            flush_interval_millis: self.flush_interval_millis,
            retention_time_secs: self.retention_duration_secs,
            high_precision: self.high_precision,
            max_concurrent: self.max_concurrent,
        }
    }

    /// The time between two flushes, in milliseconds.
    pub fn get_flush_interval(&self) -> (r: u64)
        ensures
            r == self.flush_interval_millis,
    {
        self.flush_interval_millis
    }

    /// The time for which a metric is kept, in seconds.
    pub fn get_retention_duration(&self) -> (r: u64)
        ensures
            r == self.retention_duration_secs,
    {
        self.retention_duration_secs
    }

    /// The time between two exports, in seconds.
    pub fn get_export_interval(&self) -> (r: u64)
        ensures
            r == self.export_interval_secs,
    {
        self.export_interval_secs
    }

    /// The buffer size in whole kibibytes.
    pub fn get_buffer_size_kb(&self) -> (r: usize)
        ensures
            r == self.buffer_size / 1024,
    {
        self.buffer_size / 1024
    }
}

impl ConfigLoader for MetricsConfig {
    /// The buffer size, the flush interval, the number of concurrent collections, the
    /// batch size and the port are not zero.
    open spec fn valid(&self) -> bool {
        &&& self.buffer_size != 0
        &&& self.flush_interval_millis != 0
        &&& self.max_concurrent != 0
        &&& self.batch_size != 0
        &&& self.prometheus_port != 0
    }

    open spec fn default_for(&self, env: Environment) -> bool {
        &&& self.numbers() == default_numbers(env)
        &&& self.histogram_buckets_micros@ == default_buckets(env)
    }

    /// Every setting but the bucket bounds is read from its variable; the bucket bounds
    /// are the twelve of a live deployment.
    open spec fn loaded_from(&self, vars: Seq<(Seq<char>, String)>) -> bool {
        let env = environment_named(
            lowercased(text_or(vars, "LOGGING_ENVIRONMENT"@, "development"@)),
        );
        let d = default_numbers(env);
        &&& self.buffer_size == number_or(
            vars,
            "METRICS_BUFFER_SIZE"@,
            usize::MAX as nat,
            d.buffer_size as nat,
        )
        &&& self.flush_interval_millis == number_or(
            vars,
            "METRICS_FLUSH_INTERVAL_MS"@,
            u64::MAX as nat,
            d.flush_interval_millis as nat,
        )
        &&& self.high_precision == switch_or(vars, "METRICS_HIGH_PRECISION"@, d.high_precision)
        &&& self.max_concurrent == number_or(
            vars,
            "METRICS_MAX_CONCURRENT"@,
            usize::MAX as nat,
            d.max_concurrent as nat,
        )
        &&& self.batch_size == number_or(
            vars,
            "METRICS_BATCH_SIZE"@,
            usize::MAX as nat,
            d.batch_size as nat,
        )
        &&& self.retention_duration_secs == number_or(
            vars,
            "METRICS_RETENTION_SECS"@,
            u64::MAX as nat,
            d.retention_duration_secs as nat,
        )
        &&& self.compression_enabled == switch_or(
            vars,
            "METRICS_COMPRESSION"@,
            d.compression_enabled,
        )
        &&& self.export_interval_secs == number_or(
            vars,
            "METRICS_EXPORT_INTERVAL_SECS"@,
            u64::MAX as nat,
            d.export_interval_secs as nat,
        )
        &&& self.prometheus_enabled == switch_or(
            vars,
            "PROMETHEUS_ENABLED"@,
            d.prometheus_enabled,
        )
        &&& self.prometheus_port == number_or(
            vars,
            "PROMETHEUS_PORT"@,
            u16::MAX as nat,
            d.prometheus_port as nat,
        )
        &&& self.histogram_buckets_micros@ == fine_buckets()
    }

    fn from_env(vars: &StringMap<String>) -> (r: Result<Self, LoggingError>) {
        let name = env_string_or_default(vars, "LOGGING_ENVIRONMENT", "development");
        let environment = Environment::from_str(name.as_str());
        let defaults = Self::get_defaults(&environment);
        Ok(
            MetricsConfig {
                buffer_size: env_usize_or_default(
                    vars,
                    "METRICS_BUFFER_SIZE",
                    defaults.buffer_size,
                ),
                flush_interval_millis: env_var_or_default(
                    vars,
                    "METRICS_FLUSH_INTERVAL_MS",
                    defaults.flush_interval_millis,
                ),
                high_precision: env_bool_or_default(
                    vars,
                    "METRICS_HIGH_PRECISION",
                    defaults.high_precision,
                ),
                max_concurrent: env_usize_or_default(
                    vars,
                    "METRICS_MAX_CONCURRENT",
                    defaults.max_concurrent,
                ),
                batch_size: env_usize_or_default(vars, "METRICS_BATCH_SIZE", defaults.batch_size),
                retention_duration_secs: env_var_or_default(
                    vars,
                    "METRICS_RETENTION_SECS",
                    defaults.retention_duration_secs,
                ),
                compression_enabled: env_bool_or_default(
                    vars,
                    "METRICS_COMPRESSION",
                    defaults.compression_enabled,
                ),
                export_interval_secs: env_var_or_default(
                    vars,
                    "METRICS_EXPORT_INTERVAL_SECS",
                    defaults.export_interval_secs,
                ),
                prometheus_enabled: env_bool_or_default(
                    vars,
                    "PROMETHEUS_ENABLED",
                    defaults.prometheus_enabled,
                ),
                prometheus_port: env_u16_or_default(
                    vars,
                    "PROMETHEUS_PORT",
                    defaults.prometheus_port,
                ),
                histogram_buckets_micros: fine_bucket_bounds(),
            },
        )
    }

    fn validate(&self) -> (r: Result<(), LoggingError>) {
        if self.buffer_size == 0 {
            return Err(
                LoggingError::ConfigError(String::from_str("Buffer size must be greater than 0")),
            );
        }
        if self.flush_interval_millis == 0 {
            return Err(
                LoggingError::ConfigError(
                    String::from_str("Flush interval must be greater than 0"),
                ),
            );
        }
        if self.max_concurrent == 0 {
            return Err(
                LoggingError::ConfigError(
                    String::from_str("Max concurrent must be greater than 0"),
                ),
            );
        }
        if self.batch_size == 0 {
            return Err(
                LoggingError::ConfigError(String::from_str("Batch size must be greater than 0")),
            );
        }
        if self.prometheus_port == 0 {
            return Err(
                LoggingError::ConfigError(
                    String::from_str("Prometheus port must be greater than 0"),
                ),
            );
        }
        Ok(())
    }

    fn get_defaults(env: &Environment) -> (r: Self) {
        match env {
            Environment::Production => MetricsConfig {
                buffer_size: 16384,
                flush_interval_millis: 100,
                high_precision: true,
                max_concurrent: 1000,
                batch_size: 5000,
                retention_duration_secs: 86400,
                compression_enabled: true,
                export_interval_secs: 30,
                prometheus_enabled: true,
                prometheus_port: 9090,
                histogram_buckets_micros: fine_bucket_bounds(),
            },
            Environment::Staging => MetricsConfig {
                buffer_size: 8192,
                flush_interval_millis: 200,
                high_precision: true,
                max_concurrent: 500,
                batch_size: 2500,
                retention_duration_secs: 43200,
                compression_enabled: true,
                export_interval_secs: 60,
                prometheus_enabled: true,
                prometheus_port: 9090,
                histogram_buckets_micros: fine_bucket_bounds(),
            },
            Environment::Testing => MetricsConfig {
                buffer_size: 4096,
                flush_interval_millis: 500,
                high_precision: false,
                max_concurrent: 100,
                batch_size: 1000,
                retention_duration_secs: 3600,
                compression_enabled: false,
                export_interval_secs: 120,
                prometheus_enabled: false,
                prometheus_port: 9091,
                histogram_buckets_micros: coarse_bucket_bounds(),
            },
            Environment::Development => MetricsConfig {
                buffer_size: 4096,
                flush_interval_millis: 500,
                high_precision: false,
                max_concurrent: 100,
                batch_size: 1000,
                retention_duration_secs: 3600,
                compression_enabled: false,
                export_interval_secs: 120,
                prometheus_enabled: false,
                prometheus_port: 9091,
                histogram_buckets_micros: coarse_bucket_bounds(),
            },
        }
    }
}

} // verus!
