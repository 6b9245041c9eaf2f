use bspsuite::extension::{Extension, ExtensionInfo};
use bspsuite::extension_logger::{ExtensionLogger as HostLogger, LoggerFailure};
use bspsuite::loader::HostPlatform;
use bspsuite::log_api::{
    can_log, create_api, log_message, ExtensionLogger, Level, LevelFilter, LogRecord,
    LoggerInstallError,
};
use bspsuite::probe_api::{ProbeResult, RequestError};

fn record(level: Level, msg: &str) -> LogRecord {
    LogRecord {
        level,
        target: String::from("compile"),
        module: String::from("demo::io"),
        file: String::from("demo.rs"),
        line: 17,
        msg: String::from(msg),
    }
}

#[test]
fn severity_filter_table() {
    assert!(can_log(Level::Error, LevelFilter::Error));
    assert!(!can_log(Level::Warn, LevelFilter::Error));
    assert!(can_log(Level::Warn, LevelFilter::Info));
    assert!(can_log(Level::Info, LevelFilter::Info));
    assert!(!can_log(Level::Debug, LevelFilter::Info));
    assert!(can_log(Level::Trace, LevelFilter::Trace));
    assert!(!can_log(Level::Error, LevelFilter::Off));
}

#[test]
fn logging_capability_round_trip_preserves_severity_and_text() {
    // The host serves the logging capability at version 1; the extension
    // requests version 1 and succeeds.
    let host_value = create_api(LevelFilter::Info);
    let extension = Extension::load(
        "libdemo_ext.so",
        1,
        ExtensionInfo { probe_api_version: 1, probe_fn: 0x3000 },
        HostPlatform::Linux,
    )
    .unwrap();
    let mut session = extension.begin_probe(host_value);
    let obtained = session.request_log_api(1).unwrap();
    assert_eq!(obtained, host_value);

    // The extension installs its adapter exactly once.
    let mut slot: Option<ExtensionLogger> = None;
    assert_eq!(ExtensionLogger::assign_static_logger(&mut slot, obtained), Ok(()));
    assert_eq!(
        ExtensionLogger::assign_static_logger(&mut slot, obtained),
        Err(LoggerInstallError::AlreadyInstalled)
    );
    let adapter = slot.unwrap();

    // A log call through the adapter reaches the host sink with severity
    // and message text unchanged.
    let sent = record(Level::Warn, "lighting pass skipped");
    let args = adapter.log(&sent).unwrap();
    let received = log_message(&args);
    assert_eq!(received.level, Level::Warn);
    assert_eq!(received.msg, "lighting pass skipped");
    assert_eq!(received.target, sent.target);
    assert_eq!(received.module, sent.module);
    assert_eq!(received.file, sent.file);
    assert_eq!(received.line, sent.line);

    // A message below the enabled severity never crosses the bridge.
    assert!(adapter.log(&record(Level::Debug, "verbose detail")).is_none());

    // The same extension then asks for version 2 of the same capability and
    // is told the actual version is 1.
    assert_eq!(session.request_log_api(2), Err(RequestError::VersionDidNotMatch(1)));

    // The session outcome is its own result, distinct from any request.
    let mut extension = extension;
    let retained = extension.probe(ProbeResult::Success, session);
    assert!(retained);
}

#[test]
fn host_logger_requires_matching_interface_version() {
    assert!(matches!(
        HostLogger::new(2, LevelFilter::Debug),
        Err(LoggerFailure::IncompatibleInterfaceVersion)
    ));
    let logger = HostLogger::new(1, LevelFilter::Debug).unwrap();
    assert!(logger.enabled(Level::Debug));
    assert!(!logger.enabled(Level::Trace));
}

#[test]
fn host_logger_prefixes_target() {
    let logger = HostLogger::new(1, LevelFilter::Trace).unwrap();
    let line = logger.log(&record(Level::Info, "5 brushes")).unwrap();
    assert_eq!(line, "[compile] 5 brushes");
    let silent = HostLogger::new(1, LevelFilter::Off).unwrap();
    assert!(silent.log(&record(Level::Error, "nope")).is_none());
}
