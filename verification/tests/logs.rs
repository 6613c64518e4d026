use pubg_point_rankings::services::logs::{default_log_directory_from_executable, log_record, newest_entries, LogEntryDto, LogLevel};

#[test]
fn default_log_directory_uses_executable_parent_logs_folder() {
    let executable_path = "/Applications/PUBG Point Rankings.app/Contents/MacOS/pubg";

    let directory = default_log_directory_from_executable(executable_path).expect("resolve default log directory");

    assert_eq!(directory, "/Applications/PUBG Point Rankings.app/Contents/MacOS/logs");
}

#[test]
fn executable_without_parent_is_an_error() {
    let result = default_log_directory_from_executable("/");
    assert!(result.is_err());
}

#[test]
fn log_levels_have_upper_case_labels() {
    assert_eq!(LogLevel::Error.as_str(), "ERROR");
    assert_eq!(LogLevel::Warn.as_str(), "WARN");
    assert_eq!(LogLevel::Info.as_str(), "INFO");
    assert_eq!(LogLevel::Debug.as_str(), "DEBUG");
}

#[test]
fn log_record_trims_source_and_message() {
    let record = log_record("2026-01-01T00:00:00+00:00".to_string(), LogLevel::Warn, "  sync ", " hello \n");
    assert_eq!(record.level, "WARN");
    assert_eq!(record.source, "sync");
    assert_eq!(record.message, "hello");
}

fn entry(ts: &str, message: &str) -> LogEntryDto {
    LogEntryDto { timestamp: ts.to_string(), level: "INFO".to_string(), source: "test".to_string(), message: message.to_string() }
}

#[test]
fn newest_entries_come_first_and_are_limited() {
    let entries = vec![entry("2026-01-01", "a"), entry("2026-01-03", "b"), entry("2026-01-02", "c"), entry("2026-01-03", "d")];
    let newest = newest_entries(&entries, 3);
    let messages: Vec<&str> = newest.iter().map(|e| e.message.as_str()).collect();
    assert_eq!(messages, vec!["b", "d", "c"]);
    assert!(newest_entries(&entries, 0).is_empty());
}
