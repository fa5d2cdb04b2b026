use vstd::prelude::*;

verus! {

/// Native numeric code of the trace level.
pub const LOG_LEVEL_TRACE: u32 = 100;

/// Native numeric code of the debug level.
pub const LOG_LEVEL_DEBUG: u32 = 200;

/// Native numeric code of the info level.
pub const LOG_LEVEL_INFO: u32 = 300;

/// Native numeric code of the warning level.
pub const LOG_LEVEL_WARNING: u32 = 400;

/// Native numeric code of the error level.
pub const LOG_LEVEL_ERROR: u32 = 500;

/// Native numeric code of the fatal level.
pub const LOG_LEVEL_FATAL: u32 = 600;

/// Severity of a native log message, least severe first.
#[derive(Clone, Copy, Debug, PartialEq, Eq, Structural)]
pub enum LogLevel {
    Trace,
    Debug,
    Info,
    Warning,
    Error,
    Fatal,
}

/// Severity of a record of the structured logging facility, least severe first.
/// The facility knows no separate fatal severity.
#[derive(Clone, Copy, Debug, PartialEq, Eq, Structural)]
pub enum Severity {
    Trace,
    Debug,
    Info,
    Warn,
    Error,
}

/// The native level that a native numeric code stands for, if any.
pub open spec fn spec_level_of_code(code: u32) -> Option<LogLevel> {
    if code == LOG_LEVEL_TRACE {
        Some(LogLevel::Trace)
    } else if code == LOG_LEVEL_DEBUG {
        Some(LogLevel::Debug)
    } else if code == LOG_LEVEL_INFO {
        Some(LogLevel::Info)
    } else if code == LOG_LEVEL_WARNING {
        Some(LogLevel::Warning)
    } else if code == LOG_LEVEL_ERROR {
        Some(LogLevel::Error)
    } else if code == LOG_LEVEL_FATAL {
        Some(LogLevel::Fatal)
    } else {
        None
    }
}

/// The native numeric code of a level.
pub open spec fn spec_code_of_level(level: LogLevel) -> u32 {
    match level {
        LogLevel::Trace => LOG_LEVEL_TRACE,
        LogLevel::Debug => LOG_LEVEL_DEBUG,
        LogLevel::Info => LOG_LEVEL_INFO,
        LogLevel::Warning => LOG_LEVEL_WARNING,
        LogLevel::Error => LOG_LEVEL_ERROR,
        LogLevel::Fatal => LOG_LEVEL_FATAL,
    }
}

/// The structured severity that a native level is forwarded as.
pub open spec fn spec_severity_of(level: LogLevel) -> Severity {
    match level {
        LogLevel::Trace => Severity::Trace,
        LogLevel::Debug => Severity::Debug,
        LogLevel::Info => Severity::Info,
        LogLevel::Warning => Severity::Warn,
        LogLevel::Error => Severity::Error,
        LogLevel::Fatal => Severity::Error,
    }
}

impl LogLevel {
    /// Reads a native numeric level code; `None` for a code the native stack does not define.
    pub fn from_code(code: u32) -> (r: Option<LogLevel>)
        ensures
            r == spec_level_of_code(code),
    {
        if code == LOG_LEVEL_TRACE {
            Some(LogLevel::Trace)
        } else if code == LOG_LEVEL_DEBUG {
            Some(LogLevel::Debug)
        } else if code == LOG_LEVEL_INFO {
            Some(LogLevel::Info)
        } else if code == LOG_LEVEL_WARNING {
            Some(LogLevel::Warning)
        } else if code == LOG_LEVEL_ERROR {
            Some(LogLevel::Error)
        } else if code == LOG_LEVEL_FATAL {
            Some(LogLevel::Fatal)
        } else {
            None
        }
    }

    /// Returns the native numeric code of this level.
    pub fn code(&self) -> (r: u32)
        ensures
            r == spec_code_of_level(*self),
    {
        match self {
            LogLevel::Trace => LOG_LEVEL_TRACE,
            LogLevel::Debug => LOG_LEVEL_DEBUG,
            LogLevel::Info => LOG_LEVEL_INFO,
            LogLevel::Warning => LOG_LEVEL_WARNING,
            LogLevel::Error => LOG_LEVEL_ERROR,
            LogLevel::Fatal => LOG_LEVEL_FATAL,
        }
    }

    /// Returns the structured severity this level is forwarded as.
    pub fn severity(&self) -> (r: Severity)
        ensures
            r == spec_severity_of(*self),
    {
        match self {
            LogLevel::Trace => Severity::Trace,
            LogLevel::Debug => Severity::Debug,
            LogLevel::Info => Severity::Info,
            LogLevel::Warning => Severity::Warn,
            LogLevel::Error => Severity::Error,
            LogLevel::Fatal => Severity::Error,
        }
    }
}

/// Decides how the logger bridge forwards a native log call of the given numeric
/// level: the severity of the structured record, or `None` where the level is not
/// one the native stack defines and the message is dropped.
pub fn forward_severity(code: u32) -> (r: Option<Severity>)
    ensures
        r == (match spec_level_of_code(code) {
            Some(level) => Some(spec_severity_of(level)),
            None => None::<Severity>,
        }),
{
    match LogLevel::from_code(code) {
        Some(level) => Some(level.severity()),
        None => None,
    }
}

/// Each of the six native levels is forwarded to its fixed structured severity, fatal
/// onto error, and no level is forwarded to a severity of its own beyond those five.
pub proof fn severity_table()
    ensures
        spec_severity_of(LogLevel::Trace) == Severity::Trace,
        spec_severity_of(LogLevel::Debug) == Severity::Debug,
        spec_severity_of(LogLevel::Info) == Severity::Info,
        spec_severity_of(LogLevel::Warning) == Severity::Warn,
        spec_severity_of(LogLevel::Error) == Severity::Error,
        spec_severity_of(LogLevel::Fatal) == Severity::Error,
        forall|level: LogLevel|
            spec_level_of_code(#[trigger] spec_code_of_level(level)) == Some(level),
{
}

/// The log callback that a logger configuration holds.
#[derive(Clone, Copy, Debug, PartialEq, Eq, Structural)]
pub enum LogSink {
    /// No logger is installed.
    Unset,
    /// The bridge that forwards to the structured logging facility.
    Bridge,
    /// The native stack's own logger, which writes to standard output.
    NativeDefault,
}

/// What a native logger configuration holds: its log callback, whether it has a
/// teardown callback, and whether it carries a context of its own.
#[derive(Clone, Copy, Debug, PartialEq, Eq, Structural)]
pub struct LoggerConfig {
    pub sink: LogSink,
    pub has_clear: bool,
    pub has_context: bool,
}

/// The configuration after the bridge is installed.
pub open spec fn spec_installed(c: LoggerConfig) -> LoggerConfig {
    LoggerConfig { sink: LogSink::Bridge, has_clear: false, has_context: false }
}

/// The configuration after the native defaults are applied: they install the native
/// logger only where none is set.
pub open spec fn spec_defaulted(c: LoggerConfig) -> LoggerConfig {
    if c.sink == LogSink::Unset {
        LoggerConfig { sink: LogSink::NativeDefault, has_clear: true, has_context: true }
    } else {
        c
    }
}

impl LoggerConfig {
    /// A configuration with no logger installed.
    pub fn unset() -> (r: LoggerConfig)
        ensures
            r == (LoggerConfig { sink: LogSink::Unset, has_clear: false, has_context: false }),
    {
        LoggerConfig { sink: LogSink::Unset, has_clear: false, has_context: false }
    }

    /// Installs the logger bridge. Returns whether the teardown callback of the
    /// logger that was there must be called first.
    pub fn install_bridge(&mut self) -> (clear_previous: bool)
        ensures
            clear_previous == old(self).has_clear,
            *final(self) == spec_installed(*old(self)),
    {
        let clear_previous = self.has_clear;
        self.sink = LogSink::Bridge;
        self.has_clear = false;
        self.has_context = false;
        clear_previous
    }

    /// Applies the native defaults to the logger configuration.
    pub fn apply_defaults(&mut self)
        ensures
            *final(self) == spec_defaulted(*old(self)),
    {
        if self.sink == LogSink::Unset {
            self.sink = LogSink::NativeDefault;
            self.has_clear = true;
            self.has_context = true;
        }
    }
}

/// Installing the bridge before the defaults are applied leaves the bridge in place,
/// whatever the configuration held before; installing it afterwards would be needed
/// to replace a native default logger.
pub proof fn bridge_survives_defaults(c: LoggerConfig)
    ensures
        spec_defaulted(spec_installed(c)).sink == LogSink::Bridge,
        c.sink == LogSink::Unset ==> spec_defaulted(c).sink == LogSink::NativeDefault,
{
}

} // verus!
