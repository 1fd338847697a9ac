//! The host of the engine: which services it runs, with which settings, and in which
//! state it is.

use crate::aggregator::{AggregatorConfig, LogAggregator, Transport};
use crate::collector::{MetricsCollector, MetricsConfig};
use crate::error::LoggingError;
use crate::lifecycle::ServiceStatus;
use crate::settings::{Environment, LogLevel};
use vstd::prelude::*;
use vstd::string::*;

verus! {

/// The settings of the host.
pub struct LoggingEngineConfig {
    pub service_name: String,
    pub environment: Environment,
    pub log_level: LogLevel,
    pub aggregator_config: AggregatorConfig,
    pub metrics_config: MetricsConfig,
    pub enable_distributed_tracing: bool,
    pub enable_performance_monitoring: bool,
    pub shutdown_timeout_secs: u64,
}

impl Default for LoggingEngineConfig {
    fn default() -> (r: Self)
        ensures
            r.service_name@ == "logging-engine"@,
            r.environment == Environment::Development,
            r.log_level == LogLevel::Info,
            r.enable_distributed_tracing,
            r.enable_performance_monitoring,
            r.shutdown_timeout_secs == 30,
            r.aggregator_config.batch_size == 1000,
            r.metrics_config.buffer_size == 10000,
    {
        LoggingEngineConfig {
            service_name: String::from_str("logging-engine"),
            environment: Environment::Development,
            log_level: LogLevel::Info,
            aggregator_config: AggregatorConfig::default(),
            metrics_config: MetricsConfig::default(),
            enable_distributed_tracing: true,
            enable_performance_monitoring: true,
            shutdown_timeout_secs: 30,
        }
    }
}

/// What a health check finds.
#[derive(Debug, Clone, Copy, PartialEq, Eq, Structural)]
pub struct HealthStatus {
    pub status: ServiceStatus,
    pub aggregator_healthy: bool,
    pub metrics_collector_healthy: bool,
    pub overall_healthy: bool,
}

/// The batch size that the aggregator runs with in `env`.
pub open spec fn tuned_batch_size(env: Environment) -> usize {
    match env {
        Environment::Production => 10000,
        Environment::Staging => 5000,
        _ => 1000,
    }
}

/// The batch timeout that the aggregator runs with in `env`, in milliseconds.
pub open spec fn tuned_batch_timeout(env: Environment) -> u64 {
    match env {
        Environment::Production => 50,
        Environment::Staging => 100,
        _ => 200,
    }
}

/// The memory that the aggregator may use in `env`, in bytes.
pub open spec fn tuned_memory(env: Environment) -> usize {
    match env {
        Environment::Production => 524288000,
        Environment::Staging => 262144000,
        _ => 104857600,
    }
}

/// The settings that the collector runs with in `env`; the retention time stays.
pub open spec fn tuned_metrics(env: Environment, config: MetricsConfig) -> MetricsConfig {
    match env {
        Environment::Production => MetricsConfig {
            buffer_size: 50000,
            flush_interval_millis: 25,
            high_precision: true,
            max_concurrent: 500,
            ..config
        },
        Environment::Staging => MetricsConfig {
            buffer_size: 25000,
            flush_interval_millis: 50,
            high_precision: true,
            max_concurrent: 250,
            ..config
        },
        _ => MetricsConfig {
            buffer_size: 10000,
            flush_interval_millis: 100,
            high_precision: false,
            max_concurrent: 100,
            ..config
        },
    }
}

/// Sets the batch size, the batch timeout and the memory limit of the aggregator to
/// what `env` calls for. In production the batches go to the Redis cluster.
pub fn optimize_aggregator_config(env: Environment, config: &mut AggregatorConfig)
    ensures
        final(config).batch_size == tuned_batch_size(env),
        final(config).batch_timeout_millis == tuned_batch_timeout(env),
        final(config).max_memory_usage == tuned_memory(env),
        final(config).filters == old(config).filters,
        env is Production ==> (final(config).output_transport matches Transport::Redis {
            url,
            channel,
        } && url@ == "redis://redis-cluster:6379"@ && channel@ == "trading-logs"@),
        !(env is Production) ==> final(config).output_transport == old(config).output_transport,
{
    match env {
        Environment::Production => {
            config.batch_size = 10000;
            config.batch_timeout_millis = 50;
            config.max_memory_usage = 524288000;
            config.output_transport = Transport::Redis {
                url: String::from_str("redis://redis-cluster:6379"),
                channel: String::from_str("trading-logs"),
            };
        },
        Environment::Staging => {
            config.batch_size = 5000;
            config.batch_timeout_millis = 100;
            config.max_memory_usage = 262144000;
        },
        _ => {
            config.batch_size = 1000;
            config.batch_timeout_millis = 200;
            config.max_memory_usage = 104857600;
        },
    }
}

/// Sets the buffer size, the flush interval, the precision and the concurrency of the
/// collector to what `env` calls for.
pub fn optimize_metrics_config(env: Environment, config: &mut MetricsConfig)
    ensures
        *final(config) == tuned_metrics(env, *old(config)),
{
    match env {
        Environment::Production => {
            config.buffer_size = 50000;
            config.flush_interval_millis = 25;
            config.high_precision = true;
            config.max_concurrent = 500;
        },
        Environment::Staging => {
            config.buffer_size = 25000;
            config.flush_interval_millis = 50;
            config.high_precision = true;
            config.max_concurrent = 250;
        },
        _ => {
            config.buffer_size = 10000;
            config.flush_interval_millis = 100;
            config.high_precision = false;
            config.max_concurrent = 100;
        },
    }
}

/// The host: it starts the aggregator, and the collector where monitoring is enabled,
/// and stops them again.
pub struct LoggingEngineHost {
    config: LoggingEngineConfig,
    aggregator: Option<LogAggregator>,
    metrics_collector: Option<MetricsCollector>,
    status: ServiceStatus,
}

impl LoggingEngineHost {
    /// The state of the host.
    pub closed spec fn status(&self) -> ServiceStatus {
        self.status
    }

    /// Whether the aggregator was brought up.
    pub closed spec fn has_aggregator(&self) -> bool {
        self.aggregator is Some
    }

    /// Whether the collector was brought up.
    pub closed spec fn has_collector(&self) -> bool {
        self.metrics_collector is Some
    }

    /// Whether the settings ask for the collector.
    pub closed spec fn monitoring(&self) -> bool {
        self.config.enable_performance_monitoring
    }

    /// The environment of the host.
    pub closed spec fn env(&self) -> Environment {
        self.config.environment
    }

    /// The name of the service.
    pub closed spec fn name(&self) -> Seq<char> {
        self.config.service_name@
    }

    /// Whether the services that were brought up are running.
    pub closed spec fn services_running(&self) -> bool {
        &&& self.aggregator matches Some(a) ==> a.running()
        &&& self.metrics_collector matches Some(c) ==> c.running()
    }

    /// What a health check finds in this state.
    pub open spec fn health(&self) -> HealthStatus {
        let metrics_healthy = self.has_collector() || !self.monitoring();
        HealthStatus {
            status: self.status(),
            aggregator_healthy: self.has_aggregator(),
            metrics_collector_healthy: metrics_healthy,
            overall_healthy: self.status() == ServiceStatus::Healthy && self.has_aggregator()
                && metrics_healthy,
        }
    }

    /// A host with the usual settings.
    pub fn new() -> (r: Self)
        ensures
            r.status() == ServiceStatus::Stopped,
            !r.has_aggregator(),
            !r.has_collector(),
            r.monitoring(),
            r.env() == Environment::Development,
            r.name() == "logging-engine"@,
    {
        Self::with_config(LoggingEngineConfig::default())
    }

    /// A host with the given settings: stopped, with no service brought up.
    pub fn with_config(config: LoggingEngineConfig) -> (r: Self)
        ensures
            r.status() == ServiceStatus::Stopped,
            !r.has_aggregator(),
            !r.has_collector(),
            r.monitoring() == config.enable_performance_monitoring,
            r.env() == config.environment,
            r.name() == config.service_name@,
    {
        LoggingEngineHost {
            config,
            aggregator: None,
            metrics_collector: None,
            status: ServiceStatus::Stopped,
        }
    }

    /// Brings up the aggregator, and the collector where monitoring is enabled, each
    /// with the settings that the environment calls for. Afterwards the host is healthy.
    pub fn start(&mut self) -> (r: Result<(), LoggingError>)
        ensures
            r is Ok,
            final(self).status() == ServiceStatus::Healthy,
            final(self).has_aggregator(),
            final(self).has_collector() == old(self).monitoring(),
            final(self).monitoring() == old(self).monitoring(),
            final(self).env() == old(self).env(),
            final(self).name() == old(self).name(),
            final(self).services_running(),
            final(self).health().overall_healthy,
            final(self).aggregator_batch_size() == Some(tuned_batch_size(old(self).env())),
            old(self).monitoring() ==> final(self).collector_settings() == Some(
                tuned_metrics(old(self).env(), old(self).metrics_settings()),
            ),
    {
        self.status = ServiceStatus::Starting;
        let mut tuned = self.config.aggregator_config.copy();
        optimize_aggregator_config(self.config.environment, &mut tuned);
        let mut aggregator = match LogAggregator::new(tuned) {
            Ok(aggregator) => aggregator,
            Err(e) => {
                return Err(e);
            },
        };
        let _ = aggregator.start();
        self.aggregator = Some(aggregator);
        if self.config.enable_performance_monitoring {
            let mut settings = self.config.metrics_config;
            optimize_metrics_config(self.config.environment, &mut settings);
            let mut collector = match MetricsCollector::with_config(settings, Vec::new()) {
                Ok(collector) => collector,
                Err(e) => {
                    return Err(e);
                },
            };
            let _ = collector.start();
            self.metrics_collector = Some(collector);
        } else {
            self.metrics_collector = None;
        }
        self.status = ServiceStatus::Healthy;
        Ok(())
    }

    pub fn get_status(&self) -> (r: ServiceStatus)
        ensures
            r == self.status(),
    {
        self.status
    }

    /// Stops the collector, then the aggregator. Afterwards the host is stopped.
    pub fn shutdown(&mut self) -> (r: Result<(), LoggingError>)
        ensures
            r is Ok,
            final(self).status() == ServiceStatus::Stopped,
            final(self).has_aggregator() == old(self).has_aggregator(),
            final(self).has_collector() == old(self).has_collector(),
            final(self).monitoring() == old(self).monitoring(),
            final(self).env() == old(self).env(),
            final(self).name() == old(self).name(),
            final(self).aggregator_running() == Some(false) || !final(self).has_aggregator(),
            final(self).collector_running() == Some(false) || !final(self).has_collector(),
    {
        self.status = ServiceStatus::Stopping;
        let mut collector: Option<MetricsCollector> = None;
        std::mem::swap(&mut self.metrics_collector, &mut collector);
        let collector = match collector {
            Some(mut c) => {
                let _ = c.stop();
                Some(c)
            },
            None => None,
        };
        self.metrics_collector = collector;
        let mut aggregator: Option<LogAggregator> = None;
        std::mem::swap(&mut self.aggregator, &mut aggregator);
        let aggregator = match aggregator {
            Some(mut a) => {
                let _ = a.stop();
                Some(a)
            },
            None => None,
        };
        self.aggregator = aggregator;
        self.status = ServiceStatus::Stopped;
        Ok(())
    }

    /// The batch size of the aggregator, where it was brought up.
    pub closed spec fn aggregator_batch_size(&self) -> Option<usize> {
        match self.aggregator {
            Some(a) => Some(a.batch_size()),
            None => None,
        }
    }

    /// The settings of the collector, where it was brought up.
    pub closed spec fn collector_settings(&self) -> Option<MetricsConfig> {
        match self.metrics_collector {
            Some(c) => Some(c.config()),
            None => None,
        }
    }

    /// The settings that the collector was asked to start from.
    pub closed spec fn metrics_settings(&self) -> MetricsConfig {
        self.config.metrics_config
    }

    /// Whether the aggregator runs, where it was brought up.
    pub closed spec fn aggregator_running(&self) -> Option<bool> {
        match self.aggregator {
            Some(a) => Some(a.running()),
            None => None,
        }
    }

    /// Whether the collector runs, where it was brought up.
    pub closed spec fn collector_running(&self) -> Option<bool> {
        match self.metrics_collector {
            Some(c) => Some(c.running()),
            None => None,
        }
    }

    /// The host is healthy as a whole when it is in the state Healthy, the aggregator
    /// was brought up, and the collector was brought up unless monitoring is disabled.
    pub fn health_check(&self) -> (r: Result<HealthStatus, LoggingError>)
        ensures
            r == Ok::<HealthStatus, LoggingError>(self.health()),
    {
        let aggregator_healthy = self.aggregator.is_some();
        let metrics_healthy = self.metrics_collector.is_some()
            || !self.config.enable_performance_monitoring;
        let healthy = match self.status {
            ServiceStatus::Healthy => true,
            _ => false,
        };
        Ok(
            HealthStatus {
                status: self.status,
                aggregator_healthy,
                metrics_collector_healthy: metrics_healthy,
                overall_healthy: healthy && aggregator_healthy && metrics_healthy,
            },
        )
    }

    /// The line that sums up what was started.
    pub open spec fn summary_text(&self) -> Seq<char> {
        "Logging Engine Configuration - Environment: "@ + self.env().name()
            + ", Services: [LogAggregator"@ + (if self.monitoring() {
            ", MetricsCollector"@
        } else {
            Seq::<char>::empty()
        }) + "], Tracing: "@ + (if self.tracing() {
            "Enabled"@
        } else {
            "Disabled"@
        })
    }

    /// Whether the settings ask for distributed tracing.
    pub closed spec fn tracing(&self) -> bool {
        self.config.enable_distributed_tracing
    }

    /// The line that sums up what was started.
    pub fn startup_summary(&self) -> (r: String)
        ensures
            r@ == self.summary_text(),
    {
        let mut line = String::from_str("Logging Engine Configuration - Environment: ");
        line.append(self.config.environment.as_str());
        line.append(", Services: [LogAggregator");
        if self.config.enable_performance_monitoring {
            line.append(", MetricsCollector");
        }
        line.append("], Tracing: ");
        if self.config.enable_distributed_tracing {
            line.append("Enabled");
        } else {
            line.append("Disabled");
        }
        assert(line@ =~= self.summary_text());
        line
    }

    /// The name of the service.
    pub fn service_name(&self) -> (r: &str)
        ensures
            r@ == self.name(),
    {
        self.config.service_name.as_str()
    }

    /// The environment of the host.
    pub fn environment(&self) -> (r: Environment)
        ensures
            r == self.env(),
    {
        self.config.environment
    }
}

/// Puts the settings of a host together, one at a time.
pub struct LoggingEngineBuilder {
    config: LoggingEngineConfig,
}

impl LoggingEngineBuilder {
    /// The settings gathered so far.
    pub closed spec fn settings(&self) -> LoggingEngineConfig {
        self.config
    }

    pub fn new() -> (r: Self)
        ensures
            r.settings().service_name@ == "logging-engine"@,
            r.settings().environment == Environment::Development,
            r.settings().log_level == LogLevel::Info,
            r.settings().enable_distributed_tracing,
            r.settings().enable_performance_monitoring,
            r.settings().shutdown_timeout_secs == 30,
    {
        LoggingEngineBuilder { config: LoggingEngineConfig::default() }
    }

    pub fn service_name(self, name: &str) -> (r: Self)
        ensures
            r.settings().service_name@ == name@,
            r.settings() == (LoggingEngineConfig {
                service_name: r.settings().service_name,
                ..self.settings()
            }),
    {
        let mut builder = self;
        builder.config.service_name = String::from_str(name);
        builder
    }

    pub fn environment(self, env: Environment) -> (r: Self)
        ensures
            r.settings() == (LoggingEngineConfig { environment: env, ..self.settings() }),
    {
        let mut builder = self;
        builder.config.environment = env;
        builder
    }

    pub fn log_level(self, level: LogLevel) -> (r: Self)
        ensures
            r.settings() == (LoggingEngineConfig { log_level: level, ..self.settings() }),
    {
        let mut builder = self;
        builder.config.log_level = level;
        builder
    }

    pub fn enable_performance_monitoring(self, enable: bool) -> (r: Self)
        ensures
            r.settings() == (LoggingEngineConfig {
                enable_performance_monitoring: enable,
                ..self.settings()
            }),
    {
        let mut builder = self;
        builder.config.enable_performance_monitoring = enable;
        builder
    }

    pub fn enable_distributed_tracing(self, enable: bool) -> (r: Self)
        ensures
            r.settings() == (LoggingEngineConfig {
                enable_distributed_tracing: enable,
                ..self.settings()
            }),
    {
        let mut builder = self;
        builder.config.enable_distributed_tracing = enable;
        builder
    }

    /// Sets the time that a shutdown may take, in seconds.
    pub fn shutdown_timeout(self, timeout_secs: u64) -> (r: Self)
        ensures
            r.settings() == (LoggingEngineConfig {
                shutdown_timeout_secs: timeout_secs,
                ..self.settings()
            }),
    {
        let mut builder = self;
        builder.config.shutdown_timeout_secs = timeout_secs;
        builder
    }

    /// The host with the settings gathered.
    pub fn build(self) -> (r: LoggingEngineHost)
        ensures
            r.status() == ServiceStatus::Stopped,
            !r.has_aggregator(),
            !r.has_collector(),
            r.monitoring() == self.settings().enable_performance_monitoring,
            r.env() == self.settings().environment,
            r.name() == self.settings().service_name@,
    {
        LoggingEngineHost::with_config(self.config)
    }
}

} // verus!
