//! The configuration of one logger: its level and where it sends.

use crate::error::LoggingError;
use crate::level::{level_named, lowercased, LogLevel};
use crate::string_map::StringMap;
use vstd::prelude::*;
use vstd::string::*;

verus! {

/// How to reach the other end of a transport.
pub struct ConnectionConfig {
    pub host: String,
    pub port: u16,
    pub username: Option<String>,
    pub password: Option<String>,
    /// Further settings, such as the `path` of a file or the `channel` of a publisher.
    pub options: StringMap<String>,
}

/// Which transport to use, and how to reach its other end.
pub struct TransportConfig {
    /// One of `stdout`, `console`, `file`, `redis`, `tcp`, `udp`, `kafka`.
    pub transport_type: String,
    pub connection: ConnectionConfig,
}

/// The configuration of one logger.
pub struct LoggerConfig {
    /// The minimum level that is admitted, by name.
    pub level: String,
    pub transport: TransportConfig,
}

impl Default for ConnectionConfig {
    fn default() -> (r: Self)
        ensures
            r.host@ == "localhost"@,
            r.port == 9200,
            r.username is None,
            r.password is None,
            r.options.wf(),
            r.options@.len() == 0,
    {
        ConnectionConfig {
            host: String::from_str("localhost"),
            port: 9200,
            username: None,
            password: None,
            options: StringMap::new(),
        }
    }
}

impl Default for TransportConfig {
    fn default() -> (r: Self)
        ensures
            r.transport_type@ == "stdout"@,
            r.connection.host@ == "localhost"@,
            r.connection.port == 9200,
            r.connection.username is None,
            r.connection.password is None,
            r.connection.options.wf(),
            r.connection.options@.len() == 0,
    {
        TransportConfig {
            transport_type: String::from_str("stdout"),
            connection: ConnectionConfig::default(),
        }
    }
}

impl Default for LoggerConfig {
    fn default() -> (r: Self)
        ensures
            r.level@ == "info"@,
            r.transport.transport_type@ == "stdout"@,
            r.transport.connection.host@ == "localhost"@,
            r.transport.connection.port == 9200,
            r.transport.connection.options.wf(),
            r.transport.connection.options@.len() == 0,
    {
        LoggerConfig { level: String::from_str("info"), transport: TransportConfig::default() }
    }
}

impl LoggerConfig {
    /// The level is the name of a level, the transport is the name of a transport, and a
    /// transport that goes over a network has a host and a port.
    pub open spec fn valid(&self) -> bool {
        &&& level_named(lowercased(self.level@)) is Some
        &&& crate::transport::transport_named(self.transport.transport_type@) is Some
        &&& crate::transport::transport_named(self.transport.transport_type@)->0.needs_endpoint()
            ==> self.transport.connection.host@.len() != 0 && self.transport.connection.port
            != 0
    }

    /// Checks the configuration.
    pub fn validate(&self) -> (r: Result<(), LoggingError>)
        ensures
            r is Ok <==> self.valid(),
            r matches Err(e) ==> e is InvalidLogLevel || e is TransportError || e is ConfigError,
    {
        match self.min_level() {
            Ok(_) => {},
            Err(e) => {
                return Err(e);
            },
        }
        let kind = match crate::transport::TransportKind::parse(
            self.transport.transport_type.as_str(),
        ) {
            Some(kind) => kind,
            None => {
                return Err(
                    LoggingError::TransportError(
                        String::from_str("Unknown transport type: ").concat(
                            self.transport.transport_type.as_str(),
                        ),
                    ),
                );
            },
        };
        let remote = match kind {
            crate::transport::TransportKind::Redis => true,
            crate::transport::TransportKind::Tcp => true,
            crate::transport::TransportKind::Udp => true,
            crate::transport::TransportKind::Kafka => true,
            _ => false,
        };
        if remote && (self.transport.connection.host.as_str().is_empty()
            || self.transport.connection.port == 0) {
            return Err(
                LoggingError::ConfigError(
                    String::from_str("Host and port of the transport cannot be empty"),
                ),
            );
        }
        Ok(())
    }

    /// The minimum level that the configuration names.
    pub fn min_level(&self) -> (r: Result<LogLevel, LoggingError>)
        ensures
            match r {
                Ok(level) => level_named(lowercased(self.level@)) == Some(level),
                Err(e) => level_named(lowercased(self.level@)) is None && e is InvalidLogLevel,
            },
    {
        LogLevel::from_str(self.level.as_str())
    }
}

} // verus!
