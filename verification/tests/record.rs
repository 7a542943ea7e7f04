use mongo_logger::{LogMessage, Severity};

fn sample(now: i64) -> LogMessage {
    LogMessage::build(Severity::Info, "app::db".to_string(), "connected".to_string(), now)
}

#[test]
fn build_keeps_what_it_is_given_and_sets_no_identity() {
    let record = sample(1_622_548_800_123);
    assert_eq!(record.id(), None);
    assert_eq!(record.time(), 1_622_548_800_123);
    assert_eq!(record.level(), Severity::Info);
    assert_eq!(record.target(), "app::db");
    assert_eq!(record.message(), "connected");
}

#[test]
fn build_is_deterministic() {
    assert_eq!(sample(42), sample(42));
    assert_ne!(sample(42), sample(43));
}

#[test]
fn build_takes_empty_texts_and_the_ends_of_time() {
    let first = LogMessage::build(Severity::Trace, String::new(), String::new(), i64::MIN);
    assert_eq!(first.time(), i64::MIN);
    assert_eq!(first.target(), "");
    assert_eq!(first.message(), "");
    let last = LogMessage::build(Severity::Error, String::new(), String::new(), i64::MAX);
    assert_eq!(last.time(), i64::MAX);
}

#[test]
fn new_takes_the_time_from_the_clock() {
    let record = LogMessage::new(Severity::Warn, "app".to_string(), "careful".to_string());
    assert_eq!(record.id(), None);
    assert_eq!(record.level(), Severity::Warn);
    assert_eq!(record.target(), "app");
    assert_eq!(record.message(), "careful");
    // later than the first of January 2020
    assert!(record.time() > 1_577_836_800_000);
}

#[test]
fn clock_does_not_run_backwards_between_two_records() {
    let first = LogMessage::new(Severity::Info, "app".to_string(), "one".to_string());
    let second = LogMessage::new(Severity::Info, "app".to_string(), "two".to_string());
    assert!(first.time() <= second.time());
}

#[test]
fn identity_is_written_once() {
    let mut record = sample(7);
    let first = [1u8, 2, 3, 4, 5, 6, 7, 8, 9, 10, 11, 12];
    let second = [9u8; 12];
    assert!(record.assign_identity(first));
    assert_eq!(record.id(), Some(first));
    assert!(!record.assign_identity(second));
    assert_eq!(record.id(), Some(first));
    assert_eq!(record.time(), 7);
    assert_eq!(record.level(), Severity::Info);
    assert_eq!(record.target(), "app::db");
    assert_eq!(record.message(), "connected");
}

#[test]
fn duplicate_has_the_same_contents() {
    let mut record = sample(99);
    assert_eq!(record.duplicate(), record);
    record.assign_identity([3u8; 12]);
    assert_eq!(record.duplicate(), record);
    assert_eq!(record.duplicate().id(), Some([3u8; 12]));
}

#[test]
fn console_line_at_the_epoch() {
    assert_eq!(sample(0).console_line(), "[1970-01-01 00:00:00 UTC] app::db - INFO - connected");
}

#[test]
fn console_line_shows_milliseconds() {
    let record =
        LogMessage::build(Severity::Error, "net".to_string(), "lost".to_string(), 1_622_548_800_123);
    assert_eq!(record.console_line(), "[2021-06-01 12:00:00.123 UTC] net - ERROR - lost");
}

#[test]
fn console_line_before_the_epoch() {
    let record = LogMessage::build(Severity::Debug, "t".to_string(), "m".to_string(), -1);
    assert_eq!(record.console_line(), "[1969-12-31 23:59:59.999 UTC] t - DEBUG - m");
}

#[test]
fn console_line_of_each_severity() {
    let names = [
        (Severity::Error, "ERROR"),
        (Severity::Warn, "WARN"),
        (Severity::Info, "INFO"),
        (Severity::Debug, "DEBUG"),
        (Severity::Trace, "TRACE"),
    ];
    for (severity, name) in names {
        let record = LogMessage::build(severity, "s".to_string(), "m".to_string(), 1_000);
        assert_eq!(record.console_line(), format!("[1970-01-01 00:00:01 UTC] s - {} - m", name));
    }
}

#[test]
fn console_line_keeps_empty_texts_and_separators_in_texts() {
    let record = LogMessage::build(Severity::Info, String::new(), " - ".to_string(), 0);
    assert_eq!(record.console_line(), "[1970-01-01 00:00:00 UTC]  - INFO -  - ");
}

#[test]
fn console_line_beyond_the_range_of_the_calendar_does_not_fail() {
    let late = LogMessage::build(Severity::Info, "s".to_string(), "m".to_string(), i64::MAX);
    assert!(late.console_line().ends_with(" UTC] s - INFO - m"));
    let early = LogMessage::build(Severity::Info, "s".to_string(), "m".to_string(), i64::MIN);
    assert!(early.console_line().ends_with(" UTC] s - INFO - m"));
}
