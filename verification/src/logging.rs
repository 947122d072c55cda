use vstd::prelude::*;

verus! {

/// Log severities, most severe first.
#[derive(Clone, Copy, PartialEq, Eq, Structural, Debug)]
pub enum LogLevel {
    /// Something failed.
    Error,
    /// Something looks wrong but nothing failed.
    Warn,
    /// Ordinary operational notes: binds, accepts, non-fatal errors.
    Info,
    /// Detail for debugging.
    Debug,
    /// The finest detail.
    Trace,
}

/// Numeric rank of a severity; smaller is more severe.
pub open spec fn severity_rank(level: LogLevel) -> int {
    match level {
        LogLevel::Error => 0,
        LogLevel::Warn => 1,
        LogLevel::Info => 2,
        LogLevel::Debug => 3,
        LogLevel::Trace => 4,
    }
}

impl LogLevel {
    /// Numeric rank of this severity; smaller is more severe.
    pub fn rank(&self) -> (r: u8)
        ensures
            r == severity_rank(*self),
    {
        match self {
            LogLevel::Error => 0,
            LogLevel::Warn => 1,
            LogLevel::Info => 2,
            LogLevel::Debug => 3,
            LogLevel::Trace => 4,
        }
    }
}

/// The filtering rule of the injected logging capability: keep everything at
/// `Info` or more severe, drop the rest. Logging is a side channel: the
/// decisions here feed the host's sink and never steer the core, so a lost
/// or failed log line cannot alter control flow.
pub struct InfoLogger {
    max_level: LogLevel,
}

impl InfoLogger {
    /// The most verbose severity this logger still emits.
    pub closed spec fn spec_max_level(self) -> LogLevel {
        self.max_level
    }

    /// Whether a record at `level` passes this logger's filter.
    pub open spec fn spec_enabled(self, level: LogLevel) -> bool {
        severity_rank(level) <= severity_rank(self.spec_max_level())
    }

    /// Creates the logging capability with its fixed threshold: everything
    /// at info level or above is kept.
    pub fn init() -> (l: InfoLogger)
        ensures
            l.spec_max_level() == LogLevel::Info,
    {
        InfoLogger { max_level: LogLevel::Info }
    }

    /// A record at `level` passes the filter iff it is at least as severe as
    /// the threshold.
    pub fn enabled(&self, level: LogLevel) -> (keep: bool)
        ensures
            keep == self.spec_enabled(level),
    {
        level.rank() <= self.max_level.rank()
    }

    /// The decision inside logging a record: emit iff the record's severity
    /// passes the filter. The emission itself is the host's side channel.
    pub fn log(&self, level: LogLevel) -> (emit: bool)
        ensures
            emit == self.spec_enabled(level),
    {
        self.enabled(level)
    }
}

} // verus!
