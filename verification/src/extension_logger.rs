use vstd::prelude::*;

use crate::log_api::{spec_can_log, can_log, Level, LevelFilter, LogRecord};

verus! {

/// Version of the host's raw logging interface.  An extension built
/// against any other version cannot wire a logger to the host.
pub const LOG_INTERFACE_VERSION: usize = 1;

/// Why a logger could not be wired to the host.
#[derive(Clone, Copy, PartialEq, Eq, Structural, Debug)]
pub enum LoggerFailure {
    /// The host reported a logging interface version this logger was not
    /// built against.
    IncompatibleInterfaceVersion,
}

/// A logger backed by the host's raw logging interface: it forwards each
/// record the host's filter lets through, prefixed with its category.
pub struct ExtensionLogger {
    /// The maximum severity the host reported as enabled.
    pub max_level: LevelFilter,
}

/// The line the logger forwards for a record: the record's category in
/// brackets, then the message text.
pub open spec fn spec_log_line(record: LogRecord) -> Seq<char> {
    "["@ + record.target@ + "] "@ + record.msg@
}

impl ExtensionLogger {
    /// Wire a logger to the host's raw logging interface.  The version the
    /// host reports is checked first; on mismatch no logger exists.
    pub fn new(reported_interface_version: usize, max_level: LevelFilter) -> (r: Result<
        Box<ExtensionLogger>,
        LoggerFailure,
    >)
        ensures
            reported_interface_version != LOG_INTERFACE_VERSION ==> (r matches Err(e) && e
                == LoggerFailure::IncompatibleInterfaceVersion),
            reported_interface_version == LOG_INTERFACE_VERSION ==> (r matches Ok(logger)
                && logger.max_level == max_level),
    {
        if reported_interface_version != LOG_INTERFACE_VERSION {
            return Err(LoggerFailure::IncompatibleInterfaceVersion);
        }
        Ok(Box::new(Self { max_level }))
    }

    /// Whether a message at `level` is let through.
    pub fn enabled(&self, level: Level) -> (r: bool)
        ensures
            r == spec_can_log(level, self.max_level),
    {
        can_log(level, self.max_level)
    }

    /// The line to forward for a record, or nothing when the record's
    /// severity is filtered out.
    pub fn log(&self, record: &LogRecord) -> (r: Option<String>)
        ensures
            spec_can_log(record.level, self.max_level) ==> (r matches Some(line) && line@
                == spec_log_line(*record)),
            !spec_can_log(record.level, self.max_level) ==> r is None,
    {
        if self.enabled(record.level) {
            let mut line = String::new();
            line.append("[");
            line.append(record.target.as_str());
            line.append("] ");
            line.append(record.msg.as_str());
            Some(line)
        } else {
            None
        }
    }
}

} // verus!
