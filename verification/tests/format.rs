use kyf_log::{dec_string, format_record, Level, LogRecord};

#[test]
fn level_names_are_uppercase() {
    assert_eq!(Level::Error.name(), "ERROR");
    assert_eq!(Level::Warn.name(), "WARN");
    assert_eq!(Level::Info.name(), "INFO");
    assert_eq!(Level::Debug.name(), "DEBUG");
    assert_eq!(Level::Trace.name(), "TRACE");
}

#[test]
fn severity_numbers_map_to_levels() {
    assert_eq!(Level::from_severity(1), Level::Error);
    assert_eq!(Level::from_severity(2), Level::Warn);
    assert_eq!(Level::from_severity(3), Level::Info);
    assert_eq!(Level::from_severity(4), Level::Debug);
    assert_eq!(Level::from_severity(5), Level::Trace);
    assert_eq!(Level::from_severity(0), Level::Trace);
    assert_eq!(Level::from_severity(99), Level::Trace);
}

#[test]
fn dec_string_exact_values() {
    assert_eq!(dec_string(0), "0");
    assert_eq!(dec_string(7), "7");
    assert_eq!(dec_string(10), "10");
    assert_eq!(dec_string(12345), "12345");
    assert_eq!(dec_string(4294967295), "4294967295");
}

#[test]
fn line_carries_uppercase_level_name() {
    let levels = vec![
        (Level::Error, "\"level\": \"ERROR\""),
        (Level::Warn, "\"level\": \"WARN\""),
        (Level::Info, "\"level\": \"INFO\""),
        (Level::Debug, "\"level\": \"DEBUG\""),
        (Level::Trace, "\"level\": \"TRACE\""),
    ];
    for (level, expected) in levels {
        let rec = LogRecord::new(level, None, None, "\"msg\": \"x\"".to_string());
        let line = format_record(&rec, "2024-01-02 03:04:05");
        assert!(line.contains(expected));
    }
}

#[test]
fn known_source_renders_exactly() {
    let rec = LogRecord::new(
        Level::Info,
        Some("src/app.rs".to_string()),
        Some(42),
        "\"msg\": \"hi\"".to_string(),
    );
    let line = format_record(&rec, "2024-01-02 03:04:05");
    assert_eq!(
        line,
        "{\"ts\": \"2024-01-02 03:04:05\", \"level\": \"INFO\", \"file\": \"src/app.rs\", \"line\": 42, \"msg\": \"hi\"}"
    );
}

#[test]
fn unknown_source_renders_empty_file_and_line_zero() {
    let rec = LogRecord::new(Level::Error, None, None, "\"msg\": \"x\"".to_string());
    let line = format_record(&rec, "t");
    assert_eq!(
        line,
        "{\"ts\": \"t\", \"level\": \"ERROR\", \"file\": \"\", \"line\": 0, \"msg\": \"x\"}"
    );
    assert!(line.contains("\"file\": \"\", \"line\": 0, "));
}

#[test]
fn formatting_twice_is_byte_identical() {
    let rec = LogRecord::new(
        Level::Warn,
        Some("lib.rs".to_string()),
        Some(7),
        "\"msg\": \"again\"".to_string(),
    );
    let first = format_record(&rec, "2024-12-31 23:59:59");
    let second = format_record(&rec, "2024-12-31 23:59:59");
    assert_eq!(first, second);
    assert_eq!(first.as_bytes(), second.as_bytes());
}
