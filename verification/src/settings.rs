//! The settings of a deployment: the environment, the settings of the logger, of the
//! aggregator, of the metrics collector and of the engine as a whole, with the values
//! that each environment starts from and the rules that settings have to meet.

use crate::buffer::{is_power_of_two, power_of_two};
use crate::envparse::{
    env_bool_or_default, env_string_or_default, env_u8_or_default, env_usize_or_default,
    env_var_or_default, number_or, switch_or, text_or,
};
use crate::error::LoggingError;
use crate::level::lowercased;
use crate::string_map::StringMap;
use vstd::prelude::*;
use vstd::string::*;

verus! {

/// The kind of deployment.
#[derive(Debug, Clone, Copy, PartialEq, Eq, Structural)]
pub enum Environment {
    Production,
    Staging,
    Testing,
    Development,
}

/// The environment that a lower-case name stands for; Development where it names none.
pub open spec fn environment_named(name: Seq<char>) -> Environment {
    if name == "prod"@ || name == "production"@ {
        Environment::Production
    } else if name == "stage"@ || name == "staging"@ {
        Environment::Staging
    } else if name == "test"@ || name == "testing"@ {
        Environment::Testing
    } else {
        Environment::Development
    }
}

impl Environment {
    /// The name of the environment, in lower case.
    pub open spec fn name(self) -> Seq<char> {
        match self {
            Environment::Production => "production"@,
            Environment::Staging => "staging"@,
            Environment::Testing => "testing"@,
            Environment::Development => "development"@,
        }
    }

    /// True for the two environments that carry real traffic.
    pub open spec fn is_live(self) -> bool {
        self is Production || self is Staging
    }

    /// The environment that `s` names once it is in lower case.
    pub fn from_lowercase(s: &str) -> (r: Self)
        ensures
            r == environment_named(s@),
    {
        if s.eq("prod") || s.eq("production") {
            Environment::Production
        } else if s.eq("stage") || s.eq("staging") {
            Environment::Staging
        } else if s.eq("test") || s.eq("testing") {
            Environment::Testing
        } else {
            Environment::Development
        }
    }

    /// The environment that `s` names, whatever the case of its letters.
    pub fn from_str(s: &str) -> (r: Self)
        ensures
            r == environment_named(lowercased(s@)),
    {
        let lower = s.to_lowercase();
        Environment::from_lowercase(lower.as_str())
    }

    pub fn as_str(&self) -> (r: &'static str)
        ensures
            r@ == self.name(),
    {
        match self {
            Environment::Production => "production",
            Environment::Staging => "staging",
            Environment::Testing => "testing",
            Environment::Development => "development",
        }
    }

    fn live(&self) -> (r: bool)
        ensures
            r == self.is_live(),
    {
        match self {
            Environment::Production => true,
            Environment::Staging => true,
            _ => false,
        }
    }
}

/// The four severities that settings can name.
#[derive(Debug, Clone, Copy, PartialEq, Eq, Structural)]
pub enum LogLevel {
    Debug,
    Info,
    Warn,
    Error,
}

/// The severity that a lower-case name stands for; Info where it names none.
pub open spec fn severity_named(name: Seq<char>) -> LogLevel {
    if name == "debug"@ {
        LogLevel::Debug
    } else if name == "info"@ {
        LogLevel::Info
    } else if name == "warn"@ || name == "warning"@ {
        LogLevel::Warn
    } else if name == "error"@ {
        LogLevel::Error
    } else {
        LogLevel::Info
    }
}

impl LogLevel {
    /// The severity that `s` names once it is in lower case.
    pub fn from_lowercase(s: &str) -> (r: Self)
        ensures
            r == severity_named(s@),
    {
        if s.eq("debug") {
            LogLevel::Debug
        } else if s.eq("info") {
            LogLevel::Info
        } else if s.eq("warn") || s.eq("warning") {
            LogLevel::Warn
        } else if s.eq("error") {
            LogLevel::Error
        } else {
            LogLevel::Info
        }
    }

    /// The severity that `s` names, whatever the case of its letters.
    pub fn from_str(s: &str) -> (r: Self)
        ensures
            r == severity_named(lowercased(s@)),
    {
        let lower = s.to_lowercase();
        LogLevel::from_lowercase(lower.as_str())
    }

    /// The same severity as a level of a record.
    pub fn to_record_level(&self) -> (r: crate::level::LogLevel)
        ensures
            r == match self {
                LogLevel::Debug => crate::level::LogLevel::Debug,
                LogLevel::Info => crate::level::LogLevel::Info,
                LogLevel::Warn => crate::level::LogLevel::Warn,
                LogLevel::Error => crate::level::LogLevel::Error,
            },
    {
        match self {
            LogLevel::Debug => crate::level::LogLevel::Debug,
            LogLevel::Info => crate::level::LogLevel::Info,
            LogLevel::Warn => crate::level::LogLevel::Warn,
            LogLevel::Error => crate::level::LogLevel::Error,
        }
    }
}

/// Where the aggregator delivers.
#[derive(Debug, Clone, Copy, PartialEq, Eq, Structural)]
pub enum Transport {
    Redis,
    File,
    Console,
    Network,
}

/// The transport that a lower-case name stands for; Console where it names none.
pub open spec fn delivery_named(name: Seq<char>) -> Transport {
    if name == "redis"@ {
        Transport::Redis
    } else if name == "file"@ {
        Transport::File
    } else if name == "console"@ {
        Transport::Console
    } else if name == "network"@ {
        Transport::Network
    } else {
        Transport::Console
    }
}

/// Settings that can be read from the environment, checked, and started from the values
/// of a kind of deployment.
pub trait ConfigLoader: Sized {
    /// The settings meet every rule.
    spec fn valid(&self) -> bool;

    /// The settings are what the variables `vars` give.
    spec fn loaded_from(&self, vars: Seq<(Seq<char>, String)>) -> bool;

    /// The settings are those that `env` starts from.
    spec fn default_for(&self, env: Environment) -> bool;

    /// Reads the settings from the variables of the environment, which the caller has
    /// collected. A variable that is not set, or holds what cannot be read, leaves the
    /// value that the deployment starts from.
    fn from_env(vars: &StringMap<String>) -> (r: Result<Self, LoggingError>)
        requires
            vars.wf(),
        ensures
            r is Ok,
            r->Ok_0.loaded_from(vars@),
    ;

    /// Checks the settings against the rules.
    fn validate(&self) -> (r: Result<(), LoggingError>)
        ensures
            r is Ok <==> self.valid(),
            r matches Err(e) ==> e is ConfigError,
    ;

    /// The settings that `env` starts from.
    fn get_defaults(env: &Environment) -> (r: Self)
        ensures
            r.default_for(*env),
    ;
}

/// The queue and the batches.
#[derive(Debug, Clone, Copy, PartialEq, Eq, Structural)]
pub struct BufferConfig {
    /// The capacity of the ingest queue: a power of two.
    pub ring_buffer_size: usize,
    pub batch_size: usize,
    pub flush_interval_micros: u64,
    pub max_memory_bytes: usize,
    pub pre_allocate: bool,
}

/// The transport and its retries.
pub struct TransportConfig {
    pub transport_type: String,
    pub pool_size: usize,
    pub timeout_millis: u64,
    pub retry_attempts: usize,
    pub retry_delay_millis: u64,
    /// By how much the delay grows from one retry to the next.
    pub retry_backoff_factor: u64,
    /// The longest delay between two attempts.
    pub max_retry_delay_millis: u64,
}

pub struct CompressionConfig {
    pub enabled: bool,
    pub algorithm: String,
    /// From 1, the fastest, to 9, the smallest.
    pub level: u8,
    /// A batch that serializes to fewer bytes is sent as it is.
    pub min_size_bytes: usize,
}

pub struct PerformanceConfig {
    pub simd_enabled: bool,
    pub lock_free: bool,
    pub memory_pool_size: usize,
    pub worker_threads: usize,
    pub cpu_affinity: Option<Vec<usize>>,
}

pub struct OutputConfig {
    pub output_type: String,
    pub destination: String,
    pub format: String,
    pub buffered: bool,
    pub buffer_size: usize,
}

#[derive(Debug, Clone, Copy, PartialEq, Eq, Structural)]
pub struct UltraLoggerMetricsConfig {
    pub enabled: bool,
    pub collection_interval_millis: u64,
    pub histogram_enabled: bool,
    pub memory_tracking: bool,
}

pub struct TracingConfig {
    pub enabled: bool,
    pub service_name: String,
    /// How many traces out of a thousand are kept.
    pub sampling_rate_permille: u32,
    pub jaeger_endpoint: Option<String>,
}

/// The settings of the logger.
pub struct UltraLoggerConfig {
    pub level: String,
    pub buffer: BufferConfig,
    pub transport: TransportConfig,
    pub compression: CompressionConfig,
    pub performance: PerformanceConfig,
    pub outputs: Vec<OutputConfig>,
    pub metrics: UltraLoggerMetricsConfig,
    pub tracing: TracingConfig,
}

/// The buffer settings that `env` starts from.
pub open spec fn default_buffer(env: Environment) -> BufferConfig {
    match env {
        Environment::Production => BufferConfig {
            ring_buffer_size: 65536,
            batch_size: 64,
            flush_interval_micros: 100,
            max_memory_bytes: 268435456,
            pre_allocate: true,
        },
        Environment::Staging => BufferConfig {
            ring_buffer_size: 32768,
            batch_size: 32,
            flush_interval_micros: 200,
            max_memory_bytes: 134217728,
            pre_allocate: true,
        },
        _ => BufferConfig {
            ring_buffer_size: 16384,
            batch_size: 16,
            flush_interval_micros: 500,
            max_memory_bytes: 67108864,
            pre_allocate: false,
        },
    }
}

/// The size of the connection pool and of the memory pool that `env` starts from.
pub open spec fn default_pool_size(env: Environment) -> usize {
    match env {
        Environment::Production => 1000,
        Environment::Staging => 500,
        _ => 100,
    }
}

/// The number of workers that `env` starts from.
pub open spec fn default_workers(env: Environment) -> usize {
    match env {
        Environment::Production => 8,
        Environment::Staging => 4,
        _ => 2,
    }
}

/// The timeout of a send that `env` starts from, in milliseconds.
pub open spec fn default_timeout_millis(env: Environment) -> u64 {
    match env {
        Environment::Production => 5000,
        Environment::Staging => 3000,
        _ => 1000,
    }
}

/// The number of retries that `env` starts from.
pub open spec fn default_retry_attempts(env: Environment) -> usize {
    match env {
        Environment::Production => 5,
        Environment::Staging => 3,
        _ => 2,
    }
}

/// The metrics settings of the logger that `env` starts from.
pub open spec fn default_logger_metrics(env: Environment) -> UltraLoggerMetricsConfig {
    UltraLoggerMetricsConfig {
        enabled: env.is_live(),
        collection_interval_millis: 1000,
        histogram_enabled: env is Production,
        memory_tracking: true,
    }
}

impl BufferConfig {
    /// The buffer settings that the variables give over `defaults`.
    pub open spec fn loaded(vars: Seq<(Seq<char>, String)>, defaults: BufferConfig)
        -> BufferConfig {
        BufferConfig {
            ring_buffer_size: number_or(
                vars,
                "ULTRA_RING_BUFFER_SIZE"@,
                usize::MAX as nat,
                defaults.ring_buffer_size as nat,
            ) as usize,
            batch_size: number_or(
                vars,
                "ULTRA_BATCH_SIZE"@,
                usize::MAX as nat,
                defaults.batch_size as nat,
            ) as usize,
            flush_interval_micros: number_or(
                vars,
                "ULTRA_FLUSH_INTERVAL_MICROS"@,
                u64::MAX as nat,
                defaults.flush_interval_micros as nat,
            ) as u64,
            max_memory_bytes: number_or(
                vars,
                "ULTRA_MAX_MEMORY_BYTES"@,
                usize::MAX as nat,
                defaults.max_memory_bytes as nat,
            ) as usize,
            pre_allocate: switch_or(vars, "ULTRA_PRE_ALLOCATE"@, defaults.pre_allocate),
        }
    }

    pub fn from_env_with_defaults(vars: &StringMap<String>, defaults: &BufferConfig) -> (r: Self)
        requires
            vars.wf(),
        ensures
            r == Self::loaded(vars@, *defaults),
    {
        BufferConfig {
            ring_buffer_size: env_usize_or_default(
                vars,
                "ULTRA_RING_BUFFER_SIZE",
                defaults.ring_buffer_size,
            ),
            batch_size: env_usize_or_default(vars, "ULTRA_BATCH_SIZE", defaults.batch_size),
            flush_interval_micros: env_var_or_default(
                vars,
                "ULTRA_FLUSH_INTERVAL_MICROS",
                defaults.flush_interval_micros,
            ),
            max_memory_bytes: env_usize_or_default(
                vars,
                "ULTRA_MAX_MEMORY_BYTES",
                defaults.max_memory_bytes,
            ),
            pre_allocate: env_bool_or_default(vars, "ULTRA_PRE_ALLOCATE", defaults.pre_allocate),
        }
    }
}

impl TransportConfig {
    /// The transport settings are what the variables give over `defaults`.
    pub open spec fn loaded(&self, vars: Seq<(Seq<char>, String)>, defaults: TransportConfig)
        -> bool {
        &&& self.transport_type@ == text_or(
            vars,
            "ULTRA_TRANSPORT_TYPE"@,
            defaults.transport_type@,
        )
        &&& self.pool_size == number_or(
            vars,
            "ULTRA_POOL_SIZE"@,
            usize::MAX as nat,
            defaults.pool_size as nat,
        )
        &&& self.timeout_millis == number_or(
            vars,
            "ULTRA_TIMEOUT_MS"@,
            u64::MAX as nat,
            defaults.timeout_millis as nat,
        )
        &&& self.retry_attempts == number_or(
            vars,
            "ULTRA_RETRY_ATTEMPTS"@,
            usize::MAX as nat,
            defaults.retry_attempts as nat,
        )
        &&& self.retry_delay_millis == number_or(
            vars,
            "ULTRA_RETRY_DELAY_MS"@,
            u64::MAX as nat,
            defaults.retry_delay_millis as nat,
        )
        &&& self.retry_backoff_factor == number_or(
            vars,
            "ULTRA_RETRY_BACKOFF_FACTOR"@,
            u64::MAX as nat,
            defaults.retry_backoff_factor as nat,
        )
        &&& self.max_retry_delay_millis == number_or(
            vars,
            "ULTRA_MAX_RETRY_DELAY_MS"@,
            u64::MAX as nat,
            defaults.max_retry_delay_millis as nat,
        )
    }

    pub fn from_env_with_defaults(vars: &StringMap<String>, defaults: &TransportConfig) -> (r:
        Self)
        requires
            vars.wf(),
        ensures
            r.loaded(vars@, *defaults),
    {
        TransportConfig {
            transport_type: env_string_or_default(
                vars,
                "ULTRA_TRANSPORT_TYPE",
                defaults.transport_type.as_str(),
            ),
            pool_size: env_usize_or_default(vars, "ULTRA_POOL_SIZE", defaults.pool_size),
            timeout_millis: env_var_or_default(vars, "ULTRA_TIMEOUT_MS", defaults.timeout_millis),
            retry_attempts: env_usize_or_default(
                vars,
                "ULTRA_RETRY_ATTEMPTS",
                defaults.retry_attempts,
            ),
            retry_delay_millis: env_var_or_default(
                vars,
                "ULTRA_RETRY_DELAY_MS",
                defaults.retry_delay_millis,
            ),
            retry_backoff_factor: env_var_or_default(
                vars,
                "ULTRA_RETRY_BACKOFF_FACTOR",
                defaults.retry_backoff_factor,
            ),
            max_retry_delay_millis: env_var_or_default(
                vars,
                "ULTRA_MAX_RETRY_DELAY_MS",
                defaults.max_retry_delay_millis,
            ),
        }
    }

    /// The retry policy that the settings describe.
    pub fn retry_policy(&self) -> (r: crate::transport::RetryPolicy)
        ensures
            r == (crate::transport::RetryPolicy {
                retry_attempts: self.retry_attempts,
                retry_delay_ms: self.retry_delay_millis,
                backoff_factor: self.retry_backoff_factor,
                max_retry_delay_ms: self.max_retry_delay_millis,
            }),
    {
        crate::transport::RetryPolicy {
            retry_attempts: self.retry_attempts,
            retry_delay_ms: self.retry_delay_millis,
            backoff_factor: self.retry_backoff_factor,
            max_retry_delay_ms: self.max_retry_delay_millis,
        }
    }
}

impl CompressionConfig {
    /// The compression settings are what the variables give over `defaults`.
    pub open spec fn loaded(&self, vars: Seq<(Seq<char>, String)>, defaults: CompressionConfig)
        -> bool {
        &&& self.enabled == switch_or(vars, "ULTRA_COMPRESSION_ENABLED"@, defaults.enabled)
        &&& self.algorithm@ == text_or(
            vars,
            "ULTRA_COMPRESSION_ALGORITHM"@,
            defaults.algorithm@,
        )
        &&& self.level == number_or(
            vars,
            "ULTRA_COMPRESSION_LEVEL"@,
            u8::MAX as nat,
            defaults.level as nat,
        )
        &&& self.min_size_bytes == number_or(
            vars,
            "ULTRA_COMPRESSION_MIN_SIZE"@,
            usize::MAX as nat,
            defaults.min_size_bytes as nat,
        )
    }

    pub fn from_env_with_defaults(vars: &StringMap<String>, defaults: &CompressionConfig) -> (r:
        Self)
        requires
            vars.wf(),
        ensures
            r.loaded(vars@, *defaults),
    {
        CompressionConfig {
            enabled: env_bool_or_default(vars, "ULTRA_COMPRESSION_ENABLED", defaults.enabled),
            algorithm: env_string_or_default(
                vars,
                "ULTRA_COMPRESSION_ALGORITHM",
                defaults.algorithm.as_str(),
            ),
            level: env_u8_or_default(vars, "ULTRA_COMPRESSION_LEVEL", defaults.level),
            min_size_bytes: env_usize_or_default(
                vars,
                "ULTRA_COMPRESSION_MIN_SIZE",
                defaults.min_size_bytes,
            ),
        }
    }
}

impl CompressionConfig {
    /// The codec that the settings name; zstd compresses at the level of the settings.
    pub fn codec(&self) -> (r: Result<crate::compression::AnyCompressor, LoggingError>)
        ensures
            match r {
                Ok(codec) => crate::compression::codec_named(lowercased(self.algorithm@)) == Some(
                    crate::compression::Compressor::kind(&codec),
                ) && (crate::compression::Compressor::kind(&codec)
                    == crate::compression::CompressionType::Zstd
                    ==> crate::compression::Compressor::level(&codec) == self.level),
                Err(e) => crate::compression::codec_named(lowercased(self.algorithm@)) is None
                    && e is CompressionError,
            },
    {
        match crate::compression::CompressionType::from_str(self.algorithm.as_str()) {
            Ok(crate::compression::CompressionType::Zstd) => {
                match crate::compression::ZstdCompressor::with_level(self.level as i32) {
                    Ok(zstd) => Ok(crate::compression::AnyCompressor::Zstd(zstd)),
                    Err(e) => Err(e),
                }
            },
            Ok(kind) => crate::compression::create_compressor(kind),
            Err(e) => Err(e),
        }
    }
}

impl BufferConfig {
    /// The limits of a batch that the settings describe.
    pub fn limits(&self) -> (r: crate::batcher::BatchLimits)
        ensures
            r == (crate::batcher::BatchLimits {
                batch_size: self.batch_size,
                flush_interval_micros: self.flush_interval_micros,
                max_memory_bytes: self.max_memory_bytes,
            }),
    {
        crate::batcher::BatchLimits {
            batch_size: self.batch_size,
            flush_interval_micros: self.flush_interval_micros,
            max_memory_bytes: self.max_memory_bytes,
        }
    }
}

impl PerformanceConfig {
    /// The performance settings are what the variables give over `defaults`. The CPU
    /// affinity is the list of numbers in its variable, and unset where the variable is
    /// not set or holds anything else.
    pub open spec fn loaded(&self, vars: Seq<(Seq<char>, String)>, defaults: PerformanceConfig)
        -> bool {
        &&& self.simd_enabled == switch_or(vars, "ULTRA_SIMD_ENABLED"@, defaults.simd_enabled)
        &&& self.lock_free == switch_or(vars, "ULTRA_LOCK_FREE"@, defaults.lock_free)
        &&& self.memory_pool_size == number_or(
            vars,
            "ULTRA_MEMORY_POOL_SIZE"@,
            usize::MAX as nat,
            defaults.memory_pool_size as nat,
        )
        &&& self.worker_threads == number_or(
            vars,
            "ULTRA_WORKER_THREADS"@,
            usize::MAX as nat,
            defaults.worker_threads as nat,
        )
        &&& match crate::string_map::lookup(vars, "ULTRA_CPU_AFFINITY"@) {
            Some(text) => match crate::envparse::index_list(vstd::utf8::encode_utf8(text@)) {
                Some(list) => self.cpu_affinity is Some && self.cpu_affinity->0@ == list,
                None => self.cpu_affinity is None,
            },
            None => self.cpu_affinity is None,
        }
    }

    pub fn from_env_with_defaults(vars: &StringMap<String>, defaults: &PerformanceConfig) -> (r:
        Self)
        requires
            vars.wf(),
        ensures
            r.loaded(vars@, *defaults),
    {
        PerformanceConfig {
            simd_enabled: env_bool_or_default(vars, "ULTRA_SIMD_ENABLED", defaults.simd_enabled),
            lock_free: env_bool_or_default(vars, "ULTRA_LOCK_FREE", defaults.lock_free),
            memory_pool_size: env_usize_or_default(
                vars,
                "ULTRA_MEMORY_POOL_SIZE",
                defaults.memory_pool_size,
            ),
            worker_threads: env_usize_or_default(
                vars,
                "ULTRA_WORKER_THREADS",
                defaults.worker_threads,
            ),
            cpu_affinity: parse_cpu_affinity(vars),
        }
    }
}

/// The CPU cores that the workers are pinned to: the list of numbers in the variable
/// `ULTRA_CPU_AFFINITY`.
pub fn parse_cpu_affinity(vars: &StringMap<String>) -> (r: Option<Vec<usize>>)
    requires
        vars.wf(),
    ensures
        match crate::string_map::lookup(vars@, "ULTRA_CPU_AFFINITY"@) {
            Some(text) => match crate::envparse::index_list(vstd::utf8::encode_utf8(text@)) {
                Some(list) => r is Some && r->0@ == list,
                None => r is None,
            },
            None => r is None,
        },
{
    match vars.get("ULTRA_CPU_AFFINITY") {
        Some(text) => crate::envparse::parse_index_list(text.as_str().as_bytes()),
        None => None,
    }
}

impl UltraLoggerMetricsConfig {
    /// The metrics settings that the variables give over `defaults`.
    pub open spec fn loaded(vars: Seq<(Seq<char>, String)>, defaults: UltraLoggerMetricsConfig)
        -> UltraLoggerMetricsConfig {
        UltraLoggerMetricsConfig {
            enabled: switch_or(vars, "ULTRA_METRICS_ENABLED"@, defaults.enabled),
            collection_interval_millis: number_or(
                vars,
                "ULTRA_METRICS_INTERVAL_MS"@,
                u64::MAX as nat,
                defaults.collection_interval_millis as nat,
            ) as u64,
            histogram_enabled: switch_or(
                vars,
                "ULTRA_HISTOGRAM_ENABLED"@,
                defaults.histogram_enabled,
            ),
            memory_tracking: switch_or(vars, "ULTRA_MEMORY_TRACKING"@, defaults.memory_tracking),
        }
    }

    pub fn from_env_with_defaults(
        vars: &StringMap<String>,
        defaults: &UltraLoggerMetricsConfig,
    ) -> (r: Self)
        requires
            vars.wf(),
        ensures
            r == Self::loaded(vars@, *defaults),
    {
        UltraLoggerMetricsConfig {
            enabled: env_bool_or_default(vars, "ULTRA_METRICS_ENABLED", defaults.enabled),
            collection_interval_millis: env_var_or_default(
                vars,
                "ULTRA_METRICS_INTERVAL_MS",
                defaults.collection_interval_millis,
            ),
            histogram_enabled: env_bool_or_default(
                vars,
                "ULTRA_HISTOGRAM_ENABLED",
                defaults.histogram_enabled,
            ),
            memory_tracking: env_bool_or_default(
                vars,
                "ULTRA_MEMORY_TRACKING",
                defaults.memory_tracking,
            ),
        }
    }
}

impl TracingConfig {
    /// The tracing settings are what the variables give over `defaults`.
    pub open spec fn loaded(&self, vars: Seq<(Seq<char>, String)>, defaults: TracingConfig)
        -> bool {
        &&& self.enabled == switch_or(vars, "ULTRA_TRACING_ENABLED"@, defaults.enabled)
        &&& self.service_name@ == text_or(vars, "ULTRA_SERVICE_NAME"@, defaults.service_name@)
        &&& self.sampling_rate_permille == number_or(
            vars,
            "ULTRA_SAMPLING_RATE_PERMILLE"@,
            u32::MAX as nat,
            defaults.sampling_rate_permille as nat,
        )
        &&& match crate::string_map::lookup(vars, "ULTRA_JAEGER_ENDPOINT"@) {
            Some(text) => self.jaeger_endpoint is Some && self.jaeger_endpoint->0@ == text@,
            None => match defaults.jaeger_endpoint {
                Some(text) => self.jaeger_endpoint is Some && self.jaeger_endpoint->0@
                    == text@,
                None => self.jaeger_endpoint is None,
            },
        }
    }

    pub fn from_env_with_defaults(vars: &StringMap<String>, defaults: &TracingConfig) -> (r: Self)
        requires
            vars.wf(),
        ensures
            r.loaded(vars@, *defaults),
    {
        let jaeger_endpoint = match vars.get("ULTRA_JAEGER_ENDPOINT") {
            Some(text) => Some(text.clone()),
            None => match &defaults.jaeger_endpoint {
                Some(text) => Some(text.clone()),
                None => None,
            },
        };
        TracingConfig {
            enabled: env_bool_or_default(vars, "ULTRA_TRACING_ENABLED", defaults.enabled),
            service_name: env_string_or_default(
                vars,
                "ULTRA_SERVICE_NAME",
                defaults.service_name.as_str(),
            ),
            sampling_rate_permille: crate::envparse::env_u32_or_default(
                vars,
                "ULTRA_SAMPLING_RATE_PERMILLE",
                defaults.sampling_rate_permille,
            ),
            jaeger_endpoint,
        }
    }
}

/// The one output that the variables describe.
pub open spec fn outputs_loaded(outputs: Seq<OutputConfig>, vars: Seq<(Seq<char>, String)>)
    -> bool {
    &&& outputs.len() == 1
    &&& outputs[0].output_type@ == text_or(vars, "ULTRA_OUTPUT_TYPE"@, "console"@)
    &&& outputs[0].destination@ == text_or(vars, "ULTRA_OUTPUT_DESTINATION"@, "stdout"@)
    &&& outputs[0].format@ == text_or(vars, "ULTRA_OUTPUT_FORMAT"@, "json"@)
    &&& outputs[0].buffered == switch_or(vars, "ULTRA_OUTPUT_BUFFERED"@, true)
    &&& outputs[0].buffer_size == number_or(
        vars,
        "ULTRA_OUTPUT_BUFFER_SIZE"@,
        usize::MAX as nat,
        8192,
    )
}

/// The outputs that the variables describe: one, the console unless they say otherwise.
pub fn parse_outputs_from_env(vars: &StringMap<String>) -> (r: Vec<OutputConfig>)
    requires
        vars.wf(),
    ensures
        outputs_loaded(r@, vars@),
{
    let output = OutputConfig {
        output_type: env_string_or_default(vars, "ULTRA_OUTPUT_TYPE", "console"),
        destination: env_string_or_default(vars, "ULTRA_OUTPUT_DESTINATION", "stdout"),
        format: env_string_or_default(vars, "ULTRA_OUTPUT_FORMAT", "json"),
        buffered: env_bool_or_default(vars, "ULTRA_OUTPUT_BUFFERED", true),
        buffer_size: env_usize_or_default(vars, "ULTRA_OUTPUT_BUFFER_SIZE", 8192),
    };
    let mut outputs: Vec<OutputConfig> = Vec::new();
    outputs.push(output);
    outputs
}

impl UltraLoggerConfig {
    /// The tracing settings are those that `env` starts from.
    pub open spec fn default_tracing(tracing: TracingConfig, env: Environment) -> bool {
        &&& tracing.enabled == env.is_live()
        &&& tracing.service_name@ == "ultra-logger"@
        &&& tracing.sampling_rate_permille == match env {
            Environment::Production => 100u32,
            Environment::Staging => 500u32,
            _ => 1000u32,
        }
        &&& match env {
            Environment::Production => tracing.jaeger_endpoint is Some
                && tracing.jaeger_endpoint->0@ == "http://jaeger.prod.svc.cluster.local:14268"@,
            Environment::Staging => tracing.jaeger_endpoint is Some
                && tracing.jaeger_endpoint->0@
                == "http://jaeger.staging.svc.cluster.local:14268"@,
            _ => tracing.jaeger_endpoint is None,
        }
    }
}

impl UltraLoggerConfig {
    /// The two settings are the same.
    pub open spec fn same(&self, other: &UltraLoggerConfig) -> bool {
        &&& self.level == other.level
        &&& self.buffer == other.buffer
        &&& self.transport == other.transport
        &&& self.compression == other.compression
        &&& self.performance.simd_enabled == other.performance.simd_enabled
        &&& self.performance.lock_free == other.performance.lock_free
        &&& self.performance.memory_pool_size == other.performance.memory_pool_size
        &&& self.performance.worker_threads == other.performance.worker_threads
        &&& match (self.performance.cpu_affinity, other.performance.cpu_affinity) {
            (Some(a), Some(b)) => a@ == b@,
            (None, None) => true,
            _ => false,
        }
        &&& self.outputs@.len() == other.outputs@.len()
        &&& forall|i: int|
            0 <= i < self.outputs@.len() ==> (#[trigger] self.outputs@[i]) == other.outputs@[i]
        &&& self.metrics == other.metrics
        &&& self.tracing == other.tracing
    }

    /// A copy of the settings.
    pub fn copy(&self) -> (r: Self)
        ensures
            r.same(self),
    {
        let mut outputs: Vec<OutputConfig> = Vec::new();
        let mut i: usize = 0;
        while i < self.outputs.len()
            invariant
                i <= self.outputs@.len(),
                outputs@.len() == i,
                forall|j: int| 0 <= j < i ==> (#[trigger] outputs@[j]) == self.outputs@[j],
            decreases self.outputs@.len() - i,
        {
            let output = &self.outputs[i];
            outputs.push(
                OutputConfig {
                    output_type: output.output_type.clone(),
                    destination: output.destination.clone(),
                    format: output.format.clone(),
                    buffered: output.buffered,
                    buffer_size: output.buffer_size,
                },
            );
            i += 1;
        }
        UltraLoggerConfig {
            level: self.level.clone(),
            buffer: self.buffer,
            transport: TransportConfig {
                transport_type: self.transport.transport_type.clone(),
                pool_size: self.transport.pool_size,
                timeout_millis: self.transport.timeout_millis,
                retry_attempts: self.transport.retry_attempts,
                retry_delay_millis: self.transport.retry_delay_millis,
                retry_backoff_factor: self.transport.retry_backoff_factor,
                max_retry_delay_millis: self.transport.max_retry_delay_millis,
            },
            compression: CompressionConfig {
                enabled: self.compression.enabled,
                algorithm: self.compression.algorithm.clone(),
                level: self.compression.level,
                min_size_bytes: self.compression.min_size_bytes,
            },
            performance: PerformanceConfig {
                simd_enabled: self.performance.simd_enabled,
                lock_free: self.performance.lock_free,
                memory_pool_size: self.performance.memory_pool_size,
                worker_threads: self.performance.worker_threads,
                cpu_affinity: match &self.performance.cpu_affinity {
                    Some(cores) => Some(cores.clone()),
                    None => None,
                },
            },
            outputs,
            metrics: self.metrics,
            tracing: TracingConfig {
                enabled: self.tracing.enabled,
                service_name: self.tracing.service_name.clone(),
                sampling_rate_permille: self.tracing.sampling_rate_permille,
                jaeger_endpoint: match &self.tracing.jaeger_endpoint {
                    Some(endpoint) => Some(endpoint.clone()),
                    None => None,
                },
            },
        }
    }
}

impl ConfigLoader for UltraLoggerConfig {
    /// The ring buffer size is a power of two; the batch size, the memory limit and the
    /// number of workers are not zero; the compression level is from 1 to 9; the kind
    /// of transport is named; the sampling rate is at most a thousand per mille.
    open spec fn valid(&self) -> bool {
        &&& power_of_two(self.buffer.ring_buffer_size)
        &&& self.buffer.batch_size != 0
        &&& self.buffer.max_memory_bytes != 0
        &&& self.performance.worker_threads != 0
        &&& 1 <= self.compression.level <= 9
        &&& self.transport.transport_type@.len() != 0
        &&& self.tracing.sampling_rate_permille <= 1000
    }

    open spec fn loaded_from(&self, vars: Seq<(Seq<char>, String)>) -> bool {
        let env = environment_named(
            lowercased(text_or(vars, "LOGGING_ENVIRONMENT"@, "development"@)),
        );
        exists|defaults: UltraLoggerConfig|
            {
                &&& #[trigger] defaults.default_for(env)
                &&& self.level@ == text_or(vars, "ULTRA_LOG_LEVEL"@, defaults.level@)
                &&& self.buffer == BufferConfig::loaded(vars, defaults.buffer)
                &&& self.transport.loaded(vars, defaults.transport)
                &&& self.compression.loaded(vars, defaults.compression)
                &&& self.performance.loaded(vars, defaults.performance)
                &&& outputs_loaded(self.outputs@, vars)
                &&& self.metrics == UltraLoggerMetricsConfig::loaded(vars, defaults.metrics)
                &&& self.tracing.loaded(vars, defaults.tracing)
            }
    }

    open spec fn default_for(&self, env: Environment) -> bool {
        &&& self.level@ == if env.is_live() {
            "info"@
        } else {
            "debug"@
        }
        &&& self.buffer == default_buffer(env)
        &&& self.transport.transport_type@ == "redis"@
        &&& self.transport.pool_size == default_pool_size(env)
        &&& self.transport.timeout_millis == default_timeout_millis(env)
        &&& self.transport.retry_attempts == default_retry_attempts(env)
        &&& self.transport.retry_delay_millis == 100
        &&& self.transport.retry_backoff_factor == 2
        &&& self.transport.max_retry_delay_millis == default_timeout_millis(env)
        &&& self.compression.enabled == env.is_live()
        &&& self.compression.algorithm@ == "lz4"@
        &&& self.compression.level == 1
        &&& self.compression.min_size_bytes == 1024
        &&& self.performance.simd_enabled == env.is_live()
        &&& self.performance.lock_free
        &&& self.performance.memory_pool_size == default_pool_size(env)
        &&& self.performance.worker_threads == default_workers(env)
        &&& self.performance.cpu_affinity is None
        &&& self.outputs@.len() == 1
        &&& self.outputs@[0].output_type@ == "console"@
        &&& self.outputs@[0].destination@ == "stdout"@
        &&& self.outputs@[0].format@ == "json"@
        &&& self.outputs@[0].buffered
        &&& self.outputs@[0].buffer_size == 8192
        &&& self.metrics == default_logger_metrics(env)
        &&& Self::default_tracing(self.tracing, env)
    }

    fn from_env(vars: &StringMap<String>) -> (r: Result<Self, LoggingError>) {
        let name = env_string_or_default(vars, "LOGGING_ENVIRONMENT", "development");
        let environment = Environment::from_str(name.as_str());
        let defaults = Self::get_defaults(&environment);
        let loaded = UltraLoggerConfig {
            level: env_string_or_default(vars, "ULTRA_LOG_LEVEL", defaults.level.as_str()),
            buffer: BufferConfig::from_env_with_defaults(vars, &defaults.buffer),
            transport: TransportConfig::from_env_with_defaults(vars, &defaults.transport),
            compression: CompressionConfig::from_env_with_defaults(vars, &defaults.compression),
            performance: PerformanceConfig::from_env_with_defaults(vars, &defaults.performance),
            outputs: parse_outputs_from_env(vars),
            metrics: UltraLoggerMetricsConfig::from_env_with_defaults(vars, &defaults.metrics),
            tracing: TracingConfig::from_env_with_defaults(vars, &defaults.tracing),
        };
        Ok(loaded)
    }

    fn validate(&self) -> (r: Result<(), LoggingError>) {
        if !is_power_of_two(self.buffer.ring_buffer_size) {
            return Err(
                LoggingError::ConfigError(
                    String::from_str("Ring buffer size must be a power of 2"),
                ),
            );
        }
        if self.buffer.batch_size == 0 {
            return Err(
                LoggingError::ConfigError(String::from_str("Batch size must be greater than 0")),
            );
        }
        if self.buffer.max_memory_bytes == 0 {
            return Err(
                LoggingError::ConfigError(
                    String::from_str("Max memory bytes must be greater than 0"),
                ),
            );
        }
        if self.performance.worker_threads == 0 {
            return Err(
                LoggingError::ConfigError(
                    String::from_str("Worker threads must be greater than 0"),
                ),
            );
        }
        if self.compression.level < 1 || self.compression.level > 9 {
            return Err(
                LoggingError::ConfigError(
                    String::from_str("Compression level must be between 1 and 9"),
                ),
            );
        }
        if self.transport.transport_type.as_str().is_empty() {
            return Err(
                LoggingError::ConfigError(String::from_str("Transport type cannot be empty")),
            );
        }
        if self.tracing.sampling_rate_permille > 1000 {
            return Err(
                LoggingError::ConfigError(
                    String::from_str("Sampling rate must be between 0.0 and 1.0"),
                ),
            );
        }
        Ok(())
    }

    fn get_defaults(env: &Environment) -> (r: Self) {
        let live = env.live();
        let (ring_buffer_size, batch_size, max_memory_bytes, pool_size, workers): (
            usize,
            usize,
            usize,
            usize,
            usize,
        ) = match env {
            Environment::Production => (65536, 64, 268435456, 1000, 8),
            Environment::Staging => (32768, 32, 134217728, 500, 4),
            Environment::Testing => (16384, 16, 67108864, 100, 2),
            Environment::Development => (16384, 16, 67108864, 100, 2),
        };
        let timeout_millis: u64 = match env {
            Environment::Production => 5000,
            Environment::Staging => 3000,
            _ => 1000,
        };
        let mut outputs: Vec<OutputConfig> = Vec::new();
        outputs.push(
            OutputConfig {
                output_type: String::from_str("console"),
                destination: String::from_str("stdout"),
                format: String::from_str("json"),
                buffered: true,
                buffer_size: 8192,
            },
        );
        UltraLoggerConfig {
            level: String::from_str(
                if live {
                    "info"
                } else {
                    "debug"
                },
            ),
            buffer: BufferConfig {
                ring_buffer_size,
                batch_size,
                flush_interval_micros: match env {
                    Environment::Production => 100,
                    Environment::Staging => 200,
                    _ => 500,
                },
                max_memory_bytes,
                pre_allocate: live,
            },
            transport: TransportConfig {
                transport_type: String::from_str("redis"),
                pool_size,
                timeout_millis,
                retry_attempts: match env {
                    Environment::Production => 5,
                    Environment::Staging => 3,
                    _ => 2,
                },
                retry_delay_millis: 100,
                retry_backoff_factor: 2,
                max_retry_delay_millis: timeout_millis,
            },
            compression: CompressionConfig {
                enabled: live,
                algorithm: String::from_str("lz4"),
                level: 1,
                min_size_bytes: 1024,
            },
            performance: PerformanceConfig {
                simd_enabled: live,
                lock_free: true,
                memory_pool_size: pool_size,
                worker_threads: workers,
                cpu_affinity: None,
            },
            outputs,
            metrics: UltraLoggerMetricsConfig {
                enabled: live,
                collection_interval_millis: 1000,
                histogram_enabled: match env {
                    Environment::Production => true,
                    _ => false,
                },
                memory_tracking: true,
            },
            tracing: TracingConfig {
                enabled: live,
                service_name: String::from_str("ultra-logger"),
                sampling_rate_permille: match env {
                    Environment::Production => 100,
                    Environment::Staging => 500,
                    _ => 1000,
                },
                jaeger_endpoint: match env {
                    Environment::Production => Some(
                        String::from_str("http://jaeger.prod.svc.cluster.local:14268"),
                    ),
                    Environment::Staging => Some(
                        String::from_str("http://jaeger.staging.svc.cluster.local:14268"),
                    ),
                    _ => None,
                },
            },
        }
    }
}

} // verus!
