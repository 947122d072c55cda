use http_core::logging::{InfoLogger, LogLevel};

#[test]
fn info_logger_keeps_info_and_above() {
    let l = InfoLogger::init();
    assert!(l.enabled(LogLevel::Error));
    assert!(l.enabled(LogLevel::Warn));
    assert!(l.enabled(LogLevel::Info));
    assert!(!l.enabled(LogLevel::Debug));
    assert!(!l.enabled(LogLevel::Trace));
}

#[test]
fn log_decision_follows_the_filter() {
    let l = InfoLogger::init();
    assert!(l.log(LogLevel::Info));
    assert!(!l.log(LogLevel::Trace));
}

#[test]
fn ranks_order_severities() {
    assert!(LogLevel::Error.rank() < LogLevel::Warn.rank());
    assert!(LogLevel::Warn.rank() < LogLevel::Info.rank());
    assert!(LogLevel::Info.rank() < LogLevel::Debug.rank());
    assert!(LogLevel::Debug.rank() < LogLevel::Trace.rank());
}
