use rsocr::logger::{enabled, format_line, render_record, LogEntry, LogLevel};
use rsocr::{debug, error, info, warn};

#[test]
fn test_log_functions() {
    info("测试信息日志");
    error("测试错误日志");
    debug("测试调试日志");
    warn("测试警告日志");
}

#[test]
fn test_log_enabled() {
    assert!(enabled(LogLevel::Info));
    assert!(!enabled(LogLevel::Debug));
    assert!(enabled(LogLevel::Error));
}

#[test]
fn each_builder_sets_its_level_and_keeps_the_message() {
    let e = info("a");
    assert_eq!((e.level, e.message.as_str()), (LogLevel::Info, "a"));
    let e = error("b");
    assert_eq!((e.level, e.message.as_str()), (LogLevel::Error, "b"));
    let e = debug("c");
    assert_eq!((e.level, e.message.as_str()), (LogLevel::Debug, "c"));
    let e = warn("d");
    assert_eq!((e.level, e.message.as_str()), (LogLevel::Warn, "d"));
}

#[test]
fn warn_passes_and_trace_does_not() {
    assert!(enabled(LogLevel::Warn));
    assert!(!enabled(LogLevel::Trace));
}

#[test]
fn a_line_holds_timestamp_level_and_message() {
    assert_eq!(
        format_line("2024-01-02 03:04:05.678", LogLevel::Info, "started"),
        "[2024-01-02 03:04:05.678] [INFO] started\n"
    );
    assert_eq!(format_line("t", LogLevel::Error, "m"), "[t] [ERROR] m\n");
    assert_eq!(format_line("t", LogLevel::Warn, "m"), "[t] [WARN] m\n");
    assert_eq!(format_line("t", LogLevel::Debug, "m"), "[t] [DEBUG] m\n");
    assert_eq!(format_line("t", LogLevel::Trace, ""), "[t] [TRACE] \n");
}

#[test]
fn a_passing_record_goes_to_file_and_console() {
    let out = render_record(&warn("磁盘空间不足"), "2024-01-02 03:04:05.678").unwrap();
    assert_eq!(out.file_line, "[2024-01-02 03:04:05.678] [WARN] 磁盘空间不足\n");
    assert_eq!(out.console_line, "磁盘空间不足");
}

#[test]
fn a_debug_record_is_dropped() {
    assert!(render_record(&debug("x"), "t").is_none());
    let trace = LogEntry { level: LogLevel::Trace, message: "y".to_string() };
    assert!(render_record(&trace, "t").is_none());
}
