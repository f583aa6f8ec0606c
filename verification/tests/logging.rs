use hagibis_hub_mapper::logging::{
    cli_log_level, debug, error_log, info_log, level_of_code, log_entry, warn_log, engine_log_level, format_line, needs_rotation, should_write, start_message,
    LogLevel, MAX_LOG_BYTES,
};

#[test]
fn line_format() {
    assert_eq!(
        format_line(12345, LogLevel::Info, "logging", "hello"),
        "      12.345 [INFO ] logging: hello\n"
    );
    assert_eq!(format_line(0, LogLevel::Error, "c", "m"), "       0.000 [ERROR] c: m\n");
    assert_eq!(
        format_line(123456789012, LogLevel::Debug, "x", ""),
        "123456789.012 [DEBUG] x: \n"
    );
    assert_eq!(format_line(7, LogLevel::Warn, "w", "v"), "       0.007 [WARN ] w: v\n");
}

#[test]
fn level_filter() {
    assert!(should_write(LogLevel::Error, LogLevel::Error));
    assert!(!should_write(LogLevel::Warn, LogLevel::Error));
    assert!(should_write(LogLevel::Info, LogLevel::Info));
    assert!(!should_write(LogLevel::Debug, LogLevel::Info));
    assert!(should_write(LogLevel::Debug, LogLevel::Debug));
    assert_eq!(LogLevel::Warn.rank(), 1);
}

#[test]
fn level_names() {
    assert_eq!(cli_log_level("debug"), LogLevel::Debug);
    assert_eq!(cli_log_level("info"), LogLevel::Info);
    assert_eq!(cli_log_level("warn"), LogLevel::Warn);
    assert_eq!(cli_log_level("WARN"), LogLevel::Info);
    assert_eq!(engine_log_level("debug"), LogLevel::Debug);
    assert_eq!(engine_log_level("warn"), LogLevel::Info);
    assert_eq!(start_message(LogLevel::Info), "log started — level=Info");
}

#[test]
fn rotation_threshold() {
    assert_eq!(MAX_LOG_BYTES, 10 * 1024 * 1024);
    assert!(needs_rotation(11 * 1024 * 1024));
    assert!(needs_rotation(MAX_LOG_BYTES));
    assert!(!needs_rotation(MAX_LOG_BYTES - 1));
    assert!(!needs_rotation(9));
}

#[test]
fn level_entry_points() {
    assert_eq!(debug(LogLevel::Info, 1500, "seize", "x"), None);
    assert_eq!(
        debug(LogLevel::Debug, 1500, "seize", "x").as_deref(),
        Some("       1.500 [DEBUG] seize: x\n")
    );
    assert_eq!(info_log(LogLevel::Warn, 0, "a", "b"), None);
    assert_eq!(info_log(LogLevel::Info, 0, "a", "b").as_deref(), Some("       0.000 [INFO ] a: b\n"));
    assert_eq!(warn_log(LogLevel::Error, 5, "a", "b"), None);
    assert_eq!(warn_log(LogLevel::Debug, 5, "a", "b").as_deref(), Some("       0.005 [WARN ] a: b\n"));
    for t in [LogLevel::Error, LogLevel::Warn, LogLevel::Info, LogLevel::Debug] {
        assert_eq!(
            error_log(t, 61000, "e", "f").as_deref(),
            Some("      61.000 [ERROR] e: f\n")
        );
    }
    assert_eq!(log_entry(LogLevel::Debug, LogLevel::Warn, 1, "c", "m"), None);
}

#[test]
fn c_api_level_codes() {
    assert_eq!(level_of_code(0), LogLevel::Error);
    assert_eq!(level_of_code(1), LogLevel::Warn);
    assert_eq!(level_of_code(2), LogLevel::Info);
    assert_eq!(level_of_code(3), LogLevel::Debug);
    assert_eq!(level_of_code(-1), LogLevel::Debug);
    assert_eq!(level_of_code(99), LogLevel::Debug);
}

#[test]
fn init_rotates_when_log_exceeds_max_size() {
    // an existing log of 11 MB is rotated to the old-log name
    assert!(needs_rotation(11 * 1024 * 1024));
    assert_eq!(hagibis_hub_mapper::logging::OLD_LOG_FILE_NAME, "hagibis.log.old");
}

#[test]
fn init_does_not_rotate_small_log() {
    // "tiny log\n" is nine bytes
    assert!(!needs_rotation("tiny log\n".len() as u64));
    assert_eq!(hagibis_hub_mapper::logging::LOG_FILE_NAME, "hagibis.log");
}
