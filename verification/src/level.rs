//! Levels of log records: their names, how they are parsed, and which of them a
//! configured minimum admits.

use crate::error::LoggingError;
use vstd::prelude::*;
use vstd::string::*;

verus! {

/// `str`'s equality compares the two texts character by character.
pub assume_specification[ <str as PartialEq<str>>::eq ](a: &str, b: &str) -> (r: bool)
    ensures
        r == (a@ == b@),
;

/// What `str::to_lowercase` returns for a text: its lower-case form by the Unicode
/// tables that std carries.
pub uninterp spec fn lowercased(text: Seq<char>) -> Seq<char>;

/// `str::to_lowercase` returns the lower-case form of the text.
pub assume_specification[ str::to_lowercase ](s: &str) -> (r: String)
    ensures
        r@ == lowercased(s@),
;

/// The level of a record. The first six are severities, from the most to the least
/// severe; the last four mark records of a business category and carry no severity.
#[derive(Debug, Clone, Copy, PartialEq, Eq, Hash, Structural)]
pub enum LogLevel {
    Critical,
    Error,
    Warn,
    Info,
    Debug,
    Trace,
    MarketData,
    Trade,
    Order,
    Risk,
}

/// The level that a lower-case name stands for, if it names one.
pub open spec fn level_named(name: Seq<char>) -> Option<LogLevel> {
    if name == "critical"@ || name == "crit"@ {
        Some(LogLevel::Critical)
    } else if name == "error"@ || name == "err"@ {
        Some(LogLevel::Error)
    } else if name == "warn"@ || name == "warning"@ {
        Some(LogLevel::Warn)
    } else if name == "info"@ {
        Some(LogLevel::Info)
    } else if name == "debug"@ {
        Some(LogLevel::Debug)
    } else if name == "trace"@ {
        Some(LogLevel::Trace)
    } else if name == "market_data"@ || name == "market"@ {
        Some(LogLevel::MarketData)
    } else if name == "trade"@ {
        Some(LogLevel::Trade)
    } else if name == "order"@ {
        Some(LogLevel::Order)
    } else if name == "risk"@ {
        Some(LogLevel::Risk)
    } else {
        None
    }
}

impl LogLevel {
    /// The name under which the level appears in a serialized record.
    pub open spec fn name(self) -> Seq<char> {
        match self {
            LogLevel::Critical => "CRIT"@,
            LogLevel::Error => "ERROR"@,
            LogLevel::Warn => "WARN"@,
            LogLevel::Info => "INFO"@,
            LogLevel::Debug => "DEBUG"@,
            LogLevel::Trace => "TRACE"@,
            LogLevel::MarketData => "MARKET"@,
            LogLevel::Trade => "TRADE"@,
            LogLevel::Order => "ORDER"@,
            LogLevel::Risk => "RISK"@,
        }
    }

    /// True for the four business categories.
    pub open spec fn is_category(self) -> bool {
        self is MarketData || self is Trade || self is Order || self is Risk
    }

    /// How verbose a severity is: 0 for Critical up to 5 for Trace.
    pub open spec fn verbosity(self) -> nat {
        match self {
            LogLevel::Critical => 0,
            LogLevel::Error => 1,
            LogLevel::Warn => 2,
            LogLevel::Info => 3,
            LogLevel::Debug => 4,
            LogLevel::Trace => 5,
            LogLevel::MarketData => 6,
            LogLevel::Trade => 7,
            LogLevel::Order => 8,
            LogLevel::Risk => 9,
        }
    }

    /// Whether a logger whose minimum level is `self` takes a record of `level`: a
    /// category always, a severity when it is no more verbose than the minimum.
    pub open spec fn admits_spec(self, level: LogLevel) -> bool {
        level.is_category() || level.verbosity() <= self.verbosity()
    }

    /// The level that `s` names once it is in lower case.
    pub fn from_lowercase(s: &str) -> (r: Result<LogLevel, LoggingError>)
        ensures
            match r {
                Ok(level) => level_named(s@) == Some(level),
                Err(e) => level_named(s@) is None && e is InvalidLogLevel,
            },
    {
        if s.eq("critical") || s.eq("crit") {
            Ok(LogLevel::Critical)
        } else if s.eq("error") || s.eq("err") {
            Ok(LogLevel::Error)
        } else if s.eq("warn") || s.eq("warning") {
            Ok(LogLevel::Warn)
        } else if s.eq("info") {
            Ok(LogLevel::Info)
        } else if s.eq("debug") {
            Ok(LogLevel::Debug)
        } else if s.eq("trace") {
            Ok(LogLevel::Trace)
        } else if s.eq("market_data") || s.eq("market") {
            Ok(LogLevel::MarketData)
        } else if s.eq("trade") {
            Ok(LogLevel::Trade)
        } else if s.eq("order") {
            Ok(LogLevel::Order)
        } else if s.eq("risk") {
            Ok(LogLevel::Risk)
        } else {
            Err(LoggingError::InvalidLogLevel(String::from_str(s)))
        }
    }

    /// The level that `s` names, whatever the case of its letters.
    pub fn from_str(s: &str) -> (r: Result<LogLevel, LoggingError>)
        ensures
            match r {
                Ok(level) => level_named(lowercased(s@)) == Some(level),
                Err(e) => level_named(lowercased(s@)) is None && e == LoggingError::InvalidLogLevel(
                    e->InvalidLogLevel_0,
                ) && e->InvalidLogLevel_0@ == s@,
            },
    {
        let lower = s.to_lowercase();
        match LogLevel::from_lowercase(lower.as_str()) {
            Ok(level) => Ok(level),
            Err(_) => Err(LoggingError::InvalidLogLevel(String::from_str(s))),
        }
    }

    pub fn as_str(&self) -> (r: &'static str)
        ensures
            r@ == self.name(),
    {
        match self {
            LogLevel::Critical => "CRIT",
            LogLevel::Error => "ERROR",
            LogLevel::Warn => "WARN",
            LogLevel::Info => "INFO",
            LogLevel::Debug => "DEBUG",
            LogLevel::Trace => "TRACE",
            LogLevel::MarketData => "MARKET",
            LogLevel::Trade => "TRADE",
            LogLevel::Order => "ORDER",
            LogLevel::Risk => "RISK",
        }
    }

    /// Whether a logger whose minimum level is `self` takes a record of `level`.
    pub fn admits(&self, level: LogLevel) -> (r: bool)
        ensures
            r == self.admits_spec(level),
    {
        match level {
            LogLevel::MarketData => true,
            LogLevel::Trade => true,
            LogLevel::Order => true,
            LogLevel::Risk => true,
            _ => level.rank() <= self.rank(),
        }
    }

    /// How verbose the level is, as a number.
    pub fn rank(&self) -> (r: u8)
        ensures
            r == self.verbosity(),
    {
        match self {
            LogLevel::Critical => 0,
            LogLevel::Error => 1,
            LogLevel::Warn => 2,
            LogLevel::Info => 3,
            LogLevel::Debug => 4,
            LogLevel::Trace => 5,
            LogLevel::MarketData => 6,
            LogLevel::Trade => 7,
            LogLevel::Order => 8,
            LogLevel::Risk => 9,
        }
    }
}

} // verus!
