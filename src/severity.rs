use vstd::prelude::*;

verus! {

/// The level of an event, as the tracing framework records it.
#[derive(Clone, Copy, Debug, PartialEq, Eq, Structural)]
pub enum Level {
    Trace,
    Debug,
    Info,
    Warn,
    Error,
}

/// The provider's severity levels.
#[derive(Clone, Copy, Debug, PartialEq, Eq, Structural)]
pub enum LogSeverity {
    Default,
    Debug,
    Info,
    Warning,
    Error,
    Critical,
}

/// The fixed mapping from event levels onto provider severities.
pub open spec fn severity_of(level: Level) -> LogSeverity {
    match level {
        Level::Trace => LogSeverity::Debug,
        Level::Debug => LogSeverity::Debug,
        Level::Info => LogSeverity::Info,
        Level::Warn => LogSeverity::Warning,
        Level::Error => LogSeverity::Error,
    }
}

/// The text under which a severity is written.
pub open spec fn severity_name(s: LogSeverity) -> Seq<char> {
    match s {
        LogSeverity::Default => "DEFAULT"@,
        LogSeverity::Debug => "DEBUG"@,
        LogSeverity::Info => "INFO"@,
        LogSeverity::Warning => "WARNING"@,
        LogSeverity::Error => "ERROR"@,
        LogSeverity::Critical => "CRITICAL"@,
    }
}

impl LogSeverity {
    /// The severity for an event level; `Critical` and `Default` are never
    /// derived from a level.
    pub fn from_level(level: Level) -> (r: LogSeverity)
        ensures
            r == severity_of(level),
    {
        match level {
            Level::Trace => LogSeverity::Debug,
            Level::Debug => LogSeverity::Debug,
            Level::Info => LogSeverity::Info,
            Level::Warn => LogSeverity::Warning,
            Level::Error => LogSeverity::Error,
        }
    }

    /// The provider's name of this severity.
    pub fn as_str(&self) -> (r: &'static str)
        ensures
            r@ == severity_name(*self),
    {
        match self {
            LogSeverity::Default => "DEFAULT",
            LogSeverity::Debug => "DEBUG",
            LogSeverity::Info => "INFO",
            LogSeverity::Warning => "WARNING",
            LogSeverity::Error => "ERROR",
            LogSeverity::Critical => "CRITICAL",
        }
    }
}

} // verus!
