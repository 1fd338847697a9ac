//! Error taxonomy of the pipeline and how each kind is recovered from.

use vstd::prelude::*;
use vstd::string::*;

verus! {

/// Everything that can go wrong inside the pipeline.
#[derive(Debug, Clone, PartialEq, Eq)]
pub enum LoggingError {
    AlreadyInitialized,
    InvalidLogLevel(String),
    BufferError(String),
    TransportError(String),
    SerializationError(String),
    CompressionError(String),
    ChannelSendError,
    ChannelReceiveError,
    IoError(String),
    ConfigError(String),
    MetricsError(String),
    TracingError(String),
    NetworkError(String),
    TimeoutError(u64),
    MemoryError,
    ResourceExhausted(String),
    Internal(String),
}

impl LoggingError {
    /// True for the errors that a later attempt may not meet again.
    pub open spec fn recoverable(self) -> bool {
        self is TransportError || self is NetworkError || self is TimeoutError || self is IoError
    }

    /// True for the errors after which a send is attempted again: the errors of the
    /// transport, of the network and of input and output, and timeouts. These are the
    /// recoverable errors.
    pub open spec fn retryable(self) -> bool {
        self is TransportError || self is NetworkError || self is TimeoutError || self is IoError
    }

    /// An error is retried exactly when it is recoverable.
    pub proof fn lemma_recoverable_is_retried(self)
        ensures
            self.recoverable() <==> self.retryable(),
    {
    }

    /// The text that describes the error.
    pub open spec fn message_spec(self) -> Seq<char> {
        match self {
            LoggingError::AlreadyInitialized => "Logger already initialized"@,
            LoggingError::InvalidLogLevel(m) => "Invalid log level: "@ + m@,
            LoggingError::BufferError(m) => "Buffer error: "@ + m@,
            LoggingError::TransportError(m) => "Transport error: "@ + m@,
            LoggingError::SerializationError(m) => "Serialization error: "@ + m@,
            LoggingError::CompressionError(m) => "Compression error: "@ + m@,
            LoggingError::ChannelSendError => "Channel send error"@,
            LoggingError::ChannelReceiveError => "Channel receive error"@,
            LoggingError::IoError(m) => "IO error: "@ + m@,
            LoggingError::ConfigError(m) => "Configuration error: "@ + m@,
            LoggingError::MetricsError(m) => "Metrics error: "@ + m@,
            LoggingError::TracingError(m) => "Tracing error: "@ + m@,
            LoggingError::NetworkError(m) => "Network error: "@ + m@,
            LoggingError::TimeoutError(ms) => "Timeout error: operation timed out after "@
                + crate::record::decimal_text(ms as nat) + "ms"@,
            LoggingError::MemoryError => "Memory allocation error"@,
            LoggingError::ResourceExhausted(m) => "Resource exhausted: "@ + m@,
            LoggingError::Internal(m) => "Internal error: "@ + m@,
        }
    }

    /// The text that describes the error.
    pub fn message(&self) -> (r: String)
        ensures
            r@ == self.message_spec(),
    {
        match self {
            LoggingError::AlreadyInitialized => String::from_str("Logger already initialized"),
            LoggingError::InvalidLogLevel(m) => String::from_str("Invalid log level: ").concat(
                m.as_str(),
            ),
            LoggingError::BufferError(m) => String::from_str("Buffer error: ").concat(m.as_str()),
            LoggingError::TransportError(m) => String::from_str("Transport error: ").concat(
                m.as_str(),
            ),
            LoggingError::SerializationError(m) => String::from_str(
                "Serialization error: ",
            ).concat(m.as_str()),
            LoggingError::CompressionError(m) => String::from_str("Compression error: ").concat(
                m.as_str(),
            ),
            LoggingError::ChannelSendError => String::from_str("Channel send error"),
            LoggingError::ChannelReceiveError => String::from_str("Channel receive error"),
            LoggingError::IoError(m) => String::from_str("IO error: ").concat(m.as_str()),
            LoggingError::ConfigError(m) => String::from_str("Configuration error: ").concat(
                m.as_str(),
            ),
            LoggingError::MetricsError(m) => String::from_str("Metrics error: ").concat(
                m.as_str(),
            ),
            LoggingError::TracingError(m) => String::from_str("Tracing error: ").concat(
                m.as_str(),
            ),
            LoggingError::NetworkError(m) => String::from_str("Network error: ").concat(
                m.as_str(),
            ),
            LoggingError::TimeoutError(ms) => {
                let mut text = String::from_str("Timeout error: operation timed out after ");
                crate::record::push_decimal(&mut text, *ms);
                text.append("ms");
                text
            },
            LoggingError::MemoryError => String::from_str("Memory allocation error"),
            LoggingError::ResourceExhausted(m) => String::from_str("Resource exhausted: ").concat(
                m.as_str(),
            ),
            LoggingError::Internal(m) => String::from_str("Internal error: ").concat(m.as_str()),
        }
    }

    pub fn is_recoverable(&self) -> (r: bool)
        ensures
            r == self.recoverable(),
    {
        match self {
            LoggingError::TransportError(_) => true,
            LoggingError::NetworkError(_) => true,
            LoggingError::TimeoutError(_) => true,
            LoggingError::IoError(_) => true,
            _ => false,
        }
    }

    pub fn should_retry(&self) -> (r: bool)
        ensures
            r == self.retryable(),
            r == self.recoverable(),
    {
        match self {
            LoggingError::TransportError(_) => true,
            LoggingError::NetworkError(_) => true,
            LoggingError::TimeoutError(_) => true,
            LoggingError::IoError(_) => true,
            _ => false,
        }
    }
}

/// Errors of the channel-backed front end.
#[derive(Debug, Clone, PartialEq, Eq)]
pub enum LogError {
    SerializationError(String),
    ChannelError(String),
    IoError(String),
}

impl LogError {
    /// The text that describes the error: a prefix naming the kind, then the detail.
    pub open spec fn message_spec(self) -> Seq<char> {
        match self {
            LogError::SerializationError(m) => "Serialization error: "@ + m@,
            LogError::ChannelError(m) => "Channel error: "@ + m@,
            LogError::IoError(m) => "IO error: "@ + m@,
        }
    }

    /// The text that describes the error.
    pub fn message(&self) -> (r: String)
        ensures
            r@ == self.message_spec(),
    {
        match self {
            LogError::SerializationError(m) => String::from_str("Serialization error: ").concat(
                m.as_str(),
            ),
            LogError::ChannelError(m) => String::from_str("Channel error: ").concat(m.as_str()),
            LogError::IoError(m) => String::from_str("IO error: ").concat(m.as_str()),
        }
    }
}

} // verus!
