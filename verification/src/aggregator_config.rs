//! The settings of the log aggregator.

use crate::envparse::{
    env_string_or_default, env_usize_or_default, env_var_or_default, number_or, text_or,
};
use crate::error::LoggingError;
use crate::level::lowercased;
use crate::settings::{delivery_named, environment_named, ConfigLoader, Environment, Transport};
use crate::string_map::StringMap;
use vstd::prelude::*;
use vstd::string::*;

verus! {

/// The settings of the log aggregator.
pub struct AggregatorConfig {
    pub batch_size: usize,
    pub batch_timeout_millis: u64,
    pub max_memory_usage_bytes: usize,
    pub redis_url: String,
    pub redis_channel: String,
    pub transport_type: String,
    pub buffer_capacity: usize,
    pub max_connections: usize,
    pub connection_timeout_millis: u64,
    pub retry_attempts: usize,
    pub retry_delay_millis: u64,
}

/// The numbers of the aggregator's settings.
#[derive(Debug, Clone, Copy, PartialEq, Eq, Structural)]
pub struct AggregatorNumbers {
    pub batch_size: usize,
    pub batch_timeout_millis: u64,
    pub max_memory_usage_bytes: usize,
    pub buffer_capacity: usize,
    pub max_connections: usize,
    pub connection_timeout_millis: u64,
    pub retry_attempts: usize,
    pub retry_delay_millis: u64,
}

/// The numbers that `env` starts from.
pub open spec fn default_numbers(env: Environment) -> AggregatorNumbers {
    match env {
        Environment::Production => AggregatorNumbers {
            batch_size: 10000,
            batch_timeout_millis: 50,
            max_memory_usage_bytes: 524288000,
            buffer_capacity: 65536,
            max_connections: 100,
            connection_timeout_millis: 5000,
            retry_attempts: 5,
            retry_delay_millis: 100,
        },
        Environment::Staging => AggregatorNumbers {
            batch_size: 5000,
            batch_timeout_millis: 100,
            max_memory_usage_bytes: 262144000,
            buffer_capacity: 32768,
            max_connections: 50,
            connection_timeout_millis: 3000,
            retry_attempts: 3,
            retry_delay_millis: 200,
        },
        _ => AggregatorNumbers {
            batch_size: 1000,
            batch_timeout_millis: 200,
            max_memory_usage_bytes: 104857600,
            buffer_capacity: 16384,
            max_connections: 25,
            connection_timeout_millis: 2000,
            retry_attempts: 2,
            retry_delay_millis: 500,
        },
    }
}

/// The address of the Redis server that `env` starts from.
pub open spec fn default_redis_url(env: Environment) -> Seq<char> {
    match env {
        Environment::Production => "redis://redis-cluster.prod.svc.cluster.local:6379"@,
        Environment::Staging => "redis://redis.staging.svc.cluster.local:6379"@,
        _ => "redis://localhost:6379"@,
    }
}

/// The Redis channel that `env` starts from.
pub open spec fn default_redis_channel(env: Environment) -> Seq<char> {
    match env {
        Environment::Production => "logs:production"@,
        Environment::Staging => "logs:staging"@,
        Environment::Testing => "logs:testing"@,
        Environment::Development => "logs:development"@,
    }
}

impl AggregatorConfig {
    /// The numbers of the settings.
    pub open spec fn numbers(&self) -> AggregatorNumbers {
        AggregatorNumbers {
            batch_size: self.batch_size,
            batch_timeout_millis: self.batch_timeout_millis,
            max_memory_usage_bytes: self.max_memory_usage_bytes,
            buffer_capacity: self.buffer_capacity,
            max_connections: self.max_connections,
            connection_timeout_millis: self.connection_timeout_millis,
            retry_attempts: self.retry_attempts,
            retry_delay_millis: self.retry_delay_millis,
        }
    }

    /// The settings as the aggregator takes them: the batches go to the Redis channel,
    /// and nothing is filtered.
    pub fn to_log_aggregator_config(&self) -> (r: crate::aggregator::AggregatorConfig)
        ensures
            r.batch_size == self.batch_size,
            r.batch_timeout_millis == self.batch_timeout_millis,
            r.max_memory_usage == self.max_memory_usage_bytes,
            r.filters@.len() == 0,
            r.output_transport matches crate::aggregator::Transport::Redis { url, channel }
                && url@ == self.redis_url@ && channel@ == self.redis_channel@,
    {
        crate::aggregator::AggregatorConfig {
            batch_size: self.batch_size,
            batch_timeout_millis: self.batch_timeout_millis,
            max_memory_usage: self.max_memory_usage_bytes,
            output_transport: crate::aggregator::Transport::Redis {
                url: self.redis_url.clone(),
                channel: self.redis_channel.clone(),
            },
            filters: Vec::new(),
        }
    }

    /// The time after which a batch is sent, in milliseconds.
    pub fn get_batch_timeout(&self) -> (r: u64)
        ensures
            r == self.batch_timeout_millis,
    {
        self.batch_timeout_millis
    }

    /// The time after which a connection attempt is given up, in milliseconds.
    pub fn get_connection_timeout(&self) -> (r: u64)
        ensures
            r == self.connection_timeout_millis,
    {
        self.connection_timeout_millis
    }

    /// The delay before a retry, in milliseconds.
    pub fn get_retry_delay(&self) -> (r: u64)
        ensures
            r == self.retry_delay_millis,
    {
        self.retry_delay_millis
    }

    /// The transport that the settings name; the console where they name none.
    pub fn get_transport(&self) -> (r: Transport)
        ensures
            r == delivery_named(lowercased(self.transport_type@)),
    {
        let lower = self.transport_type.as_str().to_lowercase();
        let name = lower.as_str();
        if name.eq("redis") {
            Transport::Redis
        } else if name.eq("file") {
            Transport::File
        } else if name.eq("console") {
            Transport::Console
        } else if name.eq("network") {
            Transport::Network
        } else {
            Transport::Console
        }
    }

    /// The memory limit in whole mebibytes.
    pub fn get_memory_limit_mb(&self) -> (r: usize)
        ensures
            r == self.max_memory_usage_bytes / 1048576,
    {
        self.max_memory_usage_bytes / (1024 * 1024)
    }
}

impl ConfigLoader for AggregatorConfig {
    /// The batch size, the batch timeout, the memory limit and the buffer capacity are
    /// not zero, and the address of the Redis server is not empty.
    open spec fn valid(&self) -> bool {
        &&& self.batch_size != 0
        &&& self.batch_timeout_millis != 0
        &&& self.max_memory_usage_bytes != 0
        &&& self.redis_url@.len() != 0
        &&& self.buffer_capacity != 0
    }

    open spec fn default_for(&self, env: Environment) -> bool {
        &&& self.numbers() == default_numbers(env)
        &&& self.redis_url@ == default_redis_url(env)
        &&& self.redis_channel@ == default_redis_channel(env)
        &&& self.transport_type@ == if env is Development {
            "console"@
        } else {
            "redis"@
        }
    }

    open spec fn loaded_from(&self, vars: Seq<(Seq<char>, String)>) -> bool {
        let env = environment_named(
            lowercased(text_or(vars, "LOGGING_ENVIRONMENT"@, "development"@)),
        );
        let d = default_numbers(env);
        &&& self.batch_size == number_or(
            vars,
            "LOG_BATCH_SIZE"@,
            usize::MAX as nat,
            d.batch_size as nat,
        )
        &&& self.batch_timeout_millis == number_or(
            vars,
            "LOG_BATCH_TIMEOUT_MS"@,
            u64::MAX as nat,
            d.batch_timeout_millis as nat,
        )
        &&& self.max_memory_usage_bytes == number_or(
            vars,
            "LOG_MAX_MEMORY_BYTES"@,
            usize::MAX as nat,
            d.max_memory_usage_bytes as nat,
        )
        &&& self.redis_url@ == text_or(vars, "REDIS_URL"@, default_redis_url(env))
        &&& self.redis_channel@ == text_or(vars, "REDIS_CHANNEL"@, default_redis_channel(env))
        &&& self.transport_type@ == text_or(
            vars,
            "LOG_TRANSPORT"@,
            if env is Development {
                "console"@
            } else {
                "redis"@
            },
        )
        &&& self.buffer_capacity == number_or(
            vars,
            "LOG_BUFFER_CAPACITY"@,
            usize::MAX as nat,
            d.buffer_capacity as nat,
        )
        &&& self.max_connections == number_or(
            vars,
            "LOG_MAX_CONNECTIONS"@,
            usize::MAX as nat,
            d.max_connections as nat,
        )
        &&& self.connection_timeout_millis == number_or(
            vars,
            "LOG_CONNECTION_TIMEOUT_MS"@,
            u64::MAX as nat,
            d.connection_timeout_millis as nat,
        )
        &&& self.retry_attempts == number_or(
            vars,
            "LOG_RETRY_ATTEMPTS"@,
            usize::MAX as nat,
            d.retry_attempts as nat,
        )
        &&& self.retry_delay_millis == number_or(
            vars,
            "LOG_RETRY_DELAY_MS"@,
            u64::MAX as nat,
            d.retry_delay_millis as nat,
        )
    }

    fn from_env(vars: &StringMap<String>) -> (r: Result<Self, LoggingError>) {
        let name = env_string_or_default(vars, "LOGGING_ENVIRONMENT", "development");
        let environment = Environment::from_str(name.as_str());
        let defaults = Self::get_defaults(&environment);
        Ok(
            AggregatorConfig {
                batch_size: env_usize_or_default(vars, "LOG_BATCH_SIZE", defaults.batch_size),
                batch_timeout_millis: env_var_or_default(
                    vars,
                    "LOG_BATCH_TIMEOUT_MS",
                    defaults.batch_timeout_millis,
                ),
                max_memory_usage_bytes: env_usize_or_default(
                    vars,
                    "LOG_MAX_MEMORY_BYTES",
                    defaults.max_memory_usage_bytes,
                ),
                redis_url: env_string_or_default(vars, "REDIS_URL", defaults.redis_url.as_str()),
                redis_channel: env_string_or_default(
                    vars,
                    "REDIS_CHANNEL",
                    defaults.redis_channel.as_str(),
                ),
                transport_type: env_string_or_default(
                    vars,
                    "LOG_TRANSPORT",
                    defaults.transport_type.as_str(),
                ),
                buffer_capacity: env_usize_or_default(
                    vars,
                    "LOG_BUFFER_CAPACITY",
                    defaults.buffer_capacity,
                ),
                max_connections: env_usize_or_default(
                    vars,
                    "LOG_MAX_CONNECTIONS",
                    defaults.max_connections,
                ),
                connection_timeout_millis: env_var_or_default(
                    vars,
                    "LOG_CONNECTION_TIMEOUT_MS",
                    defaults.connection_timeout_millis,
                ),
                retry_attempts: env_usize_or_default(
                    vars,
                    "LOG_RETRY_ATTEMPTS",
                    defaults.retry_attempts,
                ),
                retry_delay_millis: env_var_or_default(
                    vars,
                    "LOG_RETRY_DELAY_MS",
                    defaults.retry_delay_millis,
                ),
            },
        )
    }

    fn validate(&self) -> (r: Result<(), LoggingError>) {
        if self.batch_size == 0 {
            return Err(
                LoggingError::ConfigError(String::from_str("Batch size must be greater than 0")),
            );
        }
        if self.batch_timeout_millis == 0 {
            return Err(
                LoggingError::ConfigError(
                    String::from_str("Batch timeout must be greater than 0"),
                ),
            );
        }
        if self.max_memory_usage_bytes == 0 {
            return Err(
                LoggingError::ConfigError(
                    String::from_str("Max memory usage must be greater than 0"),
                ),
            );
        }
        if self.redis_url.as_str().is_empty() {
            return Err(LoggingError::ConfigError(String::from_str("Redis URL cannot be empty")));
        }
        if self.buffer_capacity == 0 {
            return Err(
                LoggingError::ConfigError(
                    String::from_str("Buffer capacity must be greater than 0"),
                ),
            );
        }
        Ok(())
    }

    fn get_defaults(env: &Environment) -> (r: Self) {
        match env {
            Environment::Production => AggregatorConfig {
                batch_size: 10000,
                batch_timeout_millis: 50,
                max_memory_usage_bytes: 524288000,
                redis_url: String::from_str("redis://redis-cluster.prod.svc.cluster.local:6379"),
                redis_channel: String::from_str("logs:production"),
                transport_type: String::from_str("redis"),
                buffer_capacity: 65536,
                max_connections: 100,
                connection_timeout_millis: 5000,
                retry_attempts: 5,
                retry_delay_millis: 100,
            },
            Environment::Staging => AggregatorConfig {
                batch_size: 5000,
                batch_timeout_millis: 100,
                max_memory_usage_bytes: 262144000,
                redis_url: String::from_str("redis://redis.staging.svc.cluster.local:6379"),
                redis_channel: String::from_str("logs:staging"),
                transport_type: String::from_str("redis"),
                buffer_capacity: 32768,
                max_connections: 50,
                connection_timeout_millis: 3000,
                retry_attempts: 3,
                retry_delay_millis: 200,
            },
            Environment::Testing => AggregatorConfig {
                batch_size: 1000,
                batch_timeout_millis: 200,
                max_memory_usage_bytes: 104857600,
                redis_url: String::from_str("redis://localhost:6379"),
                redis_channel: String::from_str("logs:testing"),
                transport_type: String::from_str("redis"),
                buffer_capacity: 16384,
                max_connections: 25,
                connection_timeout_millis: 2000,
                retry_attempts: 2,
                retry_delay_millis: 500,
            },
            Environment::Development => AggregatorConfig {
                batch_size: 1000,
                batch_timeout_millis: 200,
                max_memory_usage_bytes: 104857600,
                redis_url: String::from_str("redis://localhost:6379"),
                redis_channel: String::from_str("logs:development"),
                transport_type: String::from_str("console"),
                buffer_capacity: 16384,
                max_connections: 25,
                connection_timeout_millis: 2000,
                retry_attempts: 2,
                retry_delay_millis: 500,
            },
        }
    }
}

} // verus!
