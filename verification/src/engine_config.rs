//! The settings of the engine as a whole: the service and its three components.

use crate::aggregator_config::AggregatorConfig;
use crate::envparse::{
    env_bool_or_default, env_string_or_default, env_var_or_default, number_or, switch_or, text_or,
};
use crate::error::LoggingError;
use crate::level::lowercased;
use crate::metrics_config::MetricsConfig;
use crate::settings::{
    environment_named, severity_named, ConfigLoader, Environment, LogLevel, UltraLoggerConfig,
};
use crate::string_map::StringMap;
use vstd::prelude::*;
use vstd::string::*;

verus! {

/// The settings of the engine.
pub struct LoggingEngineConfig {
    pub service_name: String,
    pub environment: String,
    pub log_level: String,
    pub enable_performance_monitoring: bool,
    pub enable_distributed_tracing: bool,
    pub shutdown_timeout_secs: u64,
    pub aggregator: AggregatorConfig,
    pub metrics: MetricsConfig,
    pub ultra_logger: UltraLoggerConfig,
}

/// The time that a shutdown may take in `env`, in seconds.
pub open spec fn default_shutdown_timeout_secs(env: Environment) -> u64 {
    match env {
        Environment::Production => 60,
        Environment::Staging => 45,
        Environment::Testing => 15,
        Environment::Development => 30,
    }
}

impl LoggingEngineConfig {
    /// A copy of the settings of the aggregator.
    pub fn to_aggregator_config(&self) -> (r: AggregatorConfig)
        ensures
            r == self.aggregator,
    {
        AggregatorConfig {
            batch_size: self.aggregator.batch_size,
            batch_timeout_millis: self.aggregator.batch_timeout_millis,
            max_memory_usage_bytes: self.aggregator.max_memory_usage_bytes,
            redis_url: self.aggregator.redis_url.clone(),
            redis_channel: self.aggregator.redis_channel.clone(),
            transport_type: self.aggregator.transport_type.clone(),
            buffer_capacity: self.aggregator.buffer_capacity,
            max_connections: self.aggregator.max_connections,
            connection_timeout_millis: self.aggregator.connection_timeout_millis,
            retry_attempts: self.aggregator.retry_attempts,
            retry_delay_millis: self.aggregator.retry_delay_millis,
        }
    }

    /// A copy of the settings of the metrics collector.
    pub fn to_metrics_config(&self) -> (r: MetricsConfig)
        ensures
            r.numbers() == self.metrics.numbers(),
            r.histogram_buckets_micros@ == self.metrics.histogram_buckets_micros@,
    {
        MetricsConfig {
            buffer_size: self.metrics.buffer_size,
            flush_interval_millis: self.metrics.flush_interval_millis,
            high_precision: self.metrics.high_precision,
            max_concurrent: self.metrics.max_concurrent,
            batch_size: self.metrics.batch_size,
            retention_duration_secs: self.metrics.retention_duration_secs,
            compression_enabled: self.metrics.compression_enabled,
            export_interval_secs: self.metrics.export_interval_secs,
            prometheus_enabled: self.metrics.prometheus_enabled,
            prometheus_port: self.metrics.prometheus_port,
            histogram_buckets_micros: self.metrics.histogram_buckets_micros.clone(),
        }
    }

    /// A copy of the settings of the logger.
    pub fn to_ultra_logger_config(&self) -> (r: UltraLoggerConfig)
        ensures
            r.same(&self.ultra_logger),
    {
        self.ultra_logger.copy()
    }

    /// The environment that the settings name.
    pub fn get_environment(&self) -> (r: Environment)
        ensures
            r == environment_named(lowercased(self.environment@)),
    {
        Environment::from_str(self.environment.as_str())
    }

    /// The severity that the settings name.
    pub fn get_log_level(&self) -> (r: LogLevel)
        ensures
            r == severity_named(lowercased(self.log_level@)),
    {
        LogLevel::from_str(self.log_level.as_str())
    }

    /// The time that a shutdown may take, in seconds.
    pub fn get_shutdown_timeout(&self) -> (r: u64)
        ensures
            r == self.shutdown_timeout_secs,
    {
        self.shutdown_timeout_secs
    }
}

impl ConfigLoader for LoggingEngineConfig {
    /// The service has a name, a shutdown has time, and the settings of every component
    /// are valid.
    open spec fn valid(&self) -> bool {
        &&& self.service_name@.len() != 0
        &&& self.shutdown_timeout_secs != 0
        &&& self.aggregator.valid()
        &&& self.metrics.valid()
        &&& self.ultra_logger.valid()
    }

    open spec fn default_for(&self, env: Environment) -> bool {
        &&& self.service_name@ == "logging-engine"@
        &&& self.environment@ == env.name()
        &&& self.log_level@ == if env.is_live() {
            "info"@
        } else {
            "debug"@
        }
        &&& self.enable_performance_monitoring == env.is_live()
        &&& self.enable_distributed_tracing == env.is_live()
        &&& self.shutdown_timeout_secs == default_shutdown_timeout_secs(env)
        &&& self.aggregator.default_for(env)
        &&& self.metrics.default_for(env)
        &&& self.ultra_logger.default_for(env)
    }

    /// The settings of the service are read from their variables; the settings of the
    /// components are those that the named environment starts from.
    open spec fn loaded_from(&self, vars: Seq<(Seq<char>, String)>) -> bool {
        let env = environment_named(
            lowercased(text_or(vars, "LOGGING_ENVIRONMENT"@, "development"@)),
        );
        &&& self.service_name@ == text_or(vars, "LOGGING_SERVICE_NAME"@, "logging-engine"@)
        &&& self.environment@ == text_or(vars, "LOGGING_ENVIRONMENT"@, "development"@)
        &&& self.log_level@ == text_or(vars, "LOG_LEVEL"@, "info"@)
        &&& self.enable_performance_monitoring == switch_or(
            vars,
            "ENABLE_PERFORMANCE_MONITORING"@,
            true,
        )
        &&& self.enable_distributed_tracing == switch_or(
            vars,
            "ENABLE_DISTRIBUTED_TRACING"@,
            true,
        )
        &&& self.shutdown_timeout_secs == number_or(
            vars,
            "SHUTDOWN_TIMEOUT_SECS"@,
            u64::MAX as nat,
            30,
        )
        &&& self.aggregator.default_for(env)
        &&& self.metrics.default_for(env)
        &&& self.ultra_logger.default_for(env)
    }

    fn from_env(vars: &StringMap<String>) -> (r: Result<Self, LoggingError>) {
        let environment = env_string_or_default(vars, "LOGGING_ENVIRONMENT", "development");
        let env_type = Environment::from_str(environment.as_str());
        Ok(
            LoggingEngineConfig {
                service_name: env_string_or_default(
                    vars,
                    "LOGGING_SERVICE_NAME",
                    "logging-engine",
                ),
                environment,
                log_level: env_string_or_default(vars, "LOG_LEVEL", "info"),
                enable_performance_monitoring: env_bool_or_default(
                    vars,
                    "ENABLE_PERFORMANCE_MONITORING",
                    true,
                ),
                enable_distributed_tracing: env_bool_or_default(
                    vars,
                    "ENABLE_DISTRIBUTED_TRACING",
                    true,
                ),
                shutdown_timeout_secs: env_var_or_default(vars, "SHUTDOWN_TIMEOUT_SECS", 30),
                aggregator: AggregatorConfig::get_defaults(&env_type),
                metrics: MetricsConfig::get_defaults(&env_type),
                ultra_logger: UltraLoggerConfig::get_defaults(&env_type),
            },
        )
    }

    fn validate(&self) -> (r: Result<(), LoggingError>) {
        if self.service_name.as_str().is_empty() {
            return Err(
                LoggingError::ConfigError(String::from_str("Service name cannot be empty")),
            );
        }
        if self.shutdown_timeout_secs == 0 {
            return Err(
                LoggingError::ConfigError(
                    String::from_str("Shutdown timeout must be greater than 0"),
                ),
            );
        }
        match self.aggregator.validate() {
            Ok(()) => {},
            Err(e) => {
                return Err(e);
            },
        }
        match self.metrics.validate() {
            Ok(()) => {},
            Err(e) => {
                return Err(e);
            },
        }
        self.ultra_logger.validate()
    }

    fn get_defaults(env: &Environment) -> (r: Self) {
        let live = match env {
            Environment::Production => true,
            Environment::Staging => true,
            _ => false,
        };
        LoggingEngineConfig {
            service_name: String::from_str("logging-engine"),
            environment: String::from_str(env.as_str()),
            log_level: String::from_str(
                if live {
                    "info"
                } else {
                    "debug"
                },
            ),
            enable_performance_monitoring: live,
            enable_distributed_tracing: live,
            shutdown_timeout_secs: match env {
                Environment::Production => 60,
                Environment::Staging => 45,
                Environment::Testing => 15,
                Environment::Development => 30,
            },
            aggregator: AggregatorConfig::get_defaults(env),
            metrics: MetricsConfig::get_defaults(env),
            ultra_logger: UltraLoggerConfig::get_defaults(env),
        }
    }
}

} // verus!
