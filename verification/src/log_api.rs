use vstd::prelude::*;

use crate::api_info::ApiInfo;

verus! {

/// Severity of a single log message, most severe first.
#[derive(Clone, Copy, PartialEq, Eq, Structural, Debug)]
pub enum Level {
    Error,
    Warn,
    Info,
    Debug,
    Trace,
}

/// Maximum severity the host currently lets through; `Off` lets nothing
/// through.
#[derive(Clone, Copy, PartialEq, Eq, Structural, Debug)]
pub enum LevelFilter {
    Off,
    Error,
    Warn,
    Info,
    Debug,
    Trace,
}

/// Numeric rank of a severity: lower is more severe.
pub open spec fn level_rank(level: Level) -> int {
    match level {
        Level::Error => 1,
        Level::Warn => 2,
        Level::Info => 3,
        Level::Debug => 4,
        Level::Trace => 5,
    }
}

/// Numeric rank of a filter; a message passes a filter exactly when its
/// level's rank is at most the filter's rank.
pub open spec fn filter_rank(filter: LevelFilter) -> int {
    match filter {
        LevelFilter::Off => 0,
        LevelFilter::Error => 1,
        LevelFilter::Warn => 2,
        LevelFilter::Info => 3,
        LevelFilter::Debug => 4,
        LevelFilter::Trace => 5,
    }
}

/// Whether a message at `level` may be logged under `filter`.
pub open spec fn spec_can_log(level: Level, filter: LevelFilter) -> bool {
    level_rank(level) <= filter_rank(filter)
}

fn level_rank_exec(level: Level) -> (r: usize)
    ensures
        r == level_rank(level),
{
    match level {
        Level::Error => 1,
        Level::Warn => 2,
        Level::Info => 3,
        Level::Debug => 4,
        Level::Trace => 5,
    }
}

fn filter_rank_exec(filter: LevelFilter) -> (r: usize)
    ensures
        r == filter_rank(filter),
{
    match filter {
        LevelFilter::Off => 0,
        LevelFilter::Error => 1,
        LevelFilter::Warn => 2,
        LevelFilter::Info => 3,
        LevelFilter::Debug => 4,
        LevelFilter::Trace => 5,
    }
}

/// Whether a message at `level` is let through by `filter`.
pub fn can_log(level: Level, filter: LevelFilter) -> (r: bool)
    ensures
        r == spec_can_log(level, filter),
{
    level_rank_exec(level) <= filter_rank_exec(filter)
}

/// The logging capability value the host hands out: the one piece of state
/// an extension needs in order to decide locally whether a message is worth
/// sending.  The operations of the bridge are `can_log` and `log_message`.
#[derive(Clone, Copy, PartialEq, Eq, Structural, Debug)]
pub struct LogApi {
    pub level_filter: LevelFilter,
}

/// One fully-formed log message as it crosses the boundary from an
/// extension to the host: severity, category, originating module, source
/// location and the message text.
pub struct LogMessageArgs {
    pub level: Level,
    pub target: String,
    pub module: String,
    pub file: String,
    pub line: u32,
    pub msg: String,
}

/// A log message as either side of the bridge holds it natively.
pub struct LogRecord {
    pub level: Level,
    pub target: String,
    pub module: String,
    pub file: String,
    pub line: u32,
    pub msg: String,
}

/// Identity of the logging capability as the host registers it.
pub fn api_info() -> (r: ApiInfo)
    ensures
        r.name@ == "LogApi"@,
        r.version == 1,
{
    ApiInfo::new("LogApi", 1)
}

/// Build the logging capability value the host serves.
pub fn create_api(level_filter: LevelFilter) -> (r: LogApi)
    ensures
        r.level_filter == level_filter,
{
    LogApi { level_filter }
}

/// The boundary form of a record: every field carried over unchanged.
pub open spec fn spec_log_args(record: LogRecord) -> LogMessageArgs {
    LogMessageArgs {
        level: record.level,
        target: record.target,
        module: record.module,
        file: record.file,
        line: record.line,
        msg: record.msg,
    }
}

/// The record the host rebuilds from the boundary form: every field carried
/// over unchanged.
pub open spec fn spec_record_of_args(args: LogMessageArgs) -> LogRecord {
    LogRecord {
        level: args.level,
        target: args.target,
        module: args.module,
        file: args.file,
        line: args.line,
        msg: args.msg,
    }
}

/// Host side of the bridge: turn a received message back into a record for
/// the host's own logging machinery.
pub fn log_message(args: &LogMessageArgs) -> (r: LogRecord)
    ensures
        r == spec_record_of_args(*args),
{
    LogRecord {
        level: args.level,
        target: args.target.clone(),
        module: args.module.clone(),
        file: args.file.clone(),
        line: args.line,
        msg: args.msg.clone(),
    }
}

/// A record that crosses the bridge and is rebuilt on the host side comes
/// back identical; in particular its severity and message text are
/// unchanged.
pub proof fn lemma_log_round_trip(record: LogRecord)
    ensures
        spec_record_of_args(spec_log_args(record)) == record,
        spec_record_of_args(spec_log_args(record)).level == record.level,
        spec_record_of_args(spec_log_args(record)).msg == record.msg,
{
}

/// Why the extension-side adapter could not be installed.
#[derive(Clone, Copy, PartialEq, Eq, Structural, Debug)]
pub enum LoggerInstallError {
    /// An adapter was installed earlier; the first installation stands.
    AlreadyInstalled,
}

/// Extension-side adapter: implements the extension's own logging facade in
/// terms of the two bridge operations of a successfully requested `LogApi`.
pub struct ExtensionLogger {
    pub log_api: LogApi,
}

impl ExtensionLogger {
    /// Install the adapter as the extension's one process-wide logger.  The
    /// slot accepts exactly one installation; a second attempt fails and
    /// never replaces the first.
    pub fn assign_static_logger(
        slot: &mut Option<ExtensionLogger>,
        log_api: LogApi,
    ) -> (r: Result<(), LoggerInstallError>)
        ensures
            (*old(slot)) is Some ==> r == Err::<(), LoggerInstallError>(
                LoggerInstallError::AlreadyInstalled,
            ) && *final(slot) == *old(slot),
            (*old(slot)) is None ==> r == Ok::<(), LoggerInstallError>(()) && *final(slot)
                == Some(ExtensionLogger { log_api }),
    {
        if slot.is_some() {
            Err(LoggerInstallError::AlreadyInstalled)
        } else {
            *slot = Some(ExtensionLogger { log_api });
            Ok(())
        }
    }

    /// Whether a message at `level` would currently be sent across the
    /// bridge.
    pub fn enabled(&self, level: Level) -> (r: bool)
        ensures
            r == spec_can_log(level, self.log_api.level_filter),
    {
        can_log(level, self.log_api.level_filter)
    }

    /// Adapt one record for the bridge: the boundary form to hand to the
    /// host, or nothing when the record's severity is filtered out.
    pub fn log(&self, record: &LogRecord) -> (r: Option<LogMessageArgs>)
        ensures
            spec_can_log(record.level, self.log_api.level_filter) ==> r == Some(
                spec_log_args(*record),
            ),
            !spec_can_log(record.level, self.log_api.level_filter) ==> r is None,
    {
        if self.enabled(record.level) {
            Some(LogMessageArgs {
                level: record.level,
                target: record.target.clone(),
                module: record.module.clone(),
                file: record.file.clone(),
                line: record.line,
                msg: record.msg.clone(),
            })
        } else {
            None
        }
    }
}

} // verus!
