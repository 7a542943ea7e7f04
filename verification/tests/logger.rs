use mongo_logger::{Delivery, Emission, LogMessage, MongoLogger, Severity};

const ALL: [Severity; 5] =
    [Severity::Error, Severity::Warn, Severity::Info, Severity::Debug, Severity::Trace];

fn emit(logger: &mut MongoLogger, level: Severity, message: &str, now: i64) -> Option<Emission> {
    logger.emit(level, "app".to_string(), message.to_string(), now)
}

#[test]
fn a_new_sink_accepts_everything_and_writes_at_once() {
    let logger = MongoLogger::new("logs".to_string());
    assert_eq!(logger.collection_name(), "logs");
    assert_eq!(logger.minimum_severity(), Severity::Trace);
    assert_eq!(logger.delivery(), Delivery::Immediate);
    assert_eq!(logger.waiting(), 0);
    assert_eq!(logger.in_flight(), 0);
    for level in ALL {
        assert!(logger.enabled(level));
    }
}

#[test]
fn with_policy_keeps_the_policy() {
    let logger = MongoLogger::with_policy("audit".to_string(), Severity::Warn, Delivery::Buffered);
    assert_eq!(logger.collection_name(), "audit");
    assert_eq!(logger.minimum_severity(), Severity::Warn);
    assert_eq!(logger.delivery(), Delivery::Buffered);
    assert_eq!(logger.waiting(), 0);
    assert_eq!(logger.in_flight(), 0);
}

#[test]
fn severities_below_the_minimum_are_refused_and_leave_no_trace() {
    for minimum in ALL {
        for delivery in [Delivery::Immediate, Delivery::Buffered] {
            let mut logger = MongoLogger::with_policy("logs".to_string(), minimum, delivery);
            for level in ALL {
                if level.rank() < minimum.rank() {
                    assert!(!logger.enabled(level));
                    assert_eq!(emit(&mut logger, level, "quiet", 1), None);
                    assert_eq!(logger.waiting(), 0);
                    assert_eq!(logger.in_flight(), 0);
                    assert_eq!(logger.flush(), None);
                }
            }
        }
    }
}

#[test]
fn severities_at_or_above_the_minimum_are_accepted() {
    for minimum in ALL {
        let mut logger = MongoLogger::with_policy("logs".to_string(), minimum, Delivery::Immediate);
        for level in ALL {
            if level.rank() >= minimum.rank() {
                assert!(logger.enabled(level));
                assert!(emit(&mut logger, level, "loud", 1).is_some());
            }
        }
    }
}

#[test]
fn minimum_info_refuses_debug_and_trace_only() {
    let logger = MongoLogger::with_policy("logs".to_string(), Severity::Info, Delivery::Immediate);
    assert!(logger.enabled(Severity::Error));
    assert!(logger.enabled(Severity::Warn));
    assert!(logger.enabled(Severity::Info));
    assert!(!logger.enabled(Severity::Debug));
    assert!(!logger.enabled(Severity::Trace));
}

#[test]
fn an_immediate_emit_asks_for_its_line_and_its_write() {
    let mut logger = MongoLogger::new("logs".to_string());
    let emission = emit(&mut logger, Severity::Info, "hello", 0).unwrap();
    assert_eq!(emission.line, "[1970-01-01 00:00:00 UTC] app - INFO - hello");
    let expected = LogMessage::build(Severity::Info, "app".to_string(), "hello".to_string(), 0);
    assert_eq!(emission.write, Some(expected));
    assert_eq!(logger.waiting(), 0);
    assert_eq!(logger.in_flight(), 0);
}

#[test]
fn flush_of_an_immediate_sink_does_nothing() {
    let mut logger = MongoLogger::new("logs".to_string());
    assert_eq!(logger.flush(), None);
    emit(&mut logger, Severity::Error, "one", 1);
    assert_eq!(logger.flush(), None);
    assert_eq!(logger.flush_completed(true), 0);
    assert_eq!(logger.flush_completed(false), 0);
}

#[test]
fn a_buffered_emit_prints_and_waits() {
    let mut logger = MongoLogger::with_policy("logs".to_string(), Severity::Trace, Delivery::Buffered);
    let emission = emit(&mut logger, Severity::Warn, "held", 1_000).unwrap();
    assert_eq!(emission.line, "[1970-01-01 00:00:01 UTC] app - WARN - held");
    assert_eq!(emission.write, None);
    assert_eq!(logger.waiting(), 1);
    assert_eq!(logger.in_flight(), 0);
}

#[test]
fn flush_hands_out_all_waiting_records_in_order_in_one_batch() {
    let mut logger = MongoLogger::with_policy("logs".to_string(), Severity::Info, Delivery::Buffered);
    emit(&mut logger, Severity::Info, "one", 1);
    emit(&mut logger, Severity::Debug, "dropped", 2);
    emit(&mut logger, Severity::Error, "two", 3);
    emit(&mut logger, Severity::Warn, "three", 4);
    let batch = logger.flush().unwrap();
    let messages: Vec<&str> = batch.iter().map(|record| record.message()).collect();
    assert_eq!(messages, vec!["one", "two", "three"]);
    let times: Vec<i64> = batch.iter().map(|record| record.time()).collect();
    assert_eq!(times, vec![1, 3, 4]);
    assert_eq!(logger.waiting(), 0);
    assert_eq!(logger.in_flight(), 3);
}

#[test]
fn the_batch_stays_in_the_buffer_until_its_write_has_completed() {
    let mut logger = MongoLogger::with_policy("logs".to_string(), Severity::Trace, Delivery::Buffered);
    emit(&mut logger, Severity::Info, "one", 1);
    emit(&mut logger, Severity::Info, "two", 2);
    assert!(logger.flush().is_some());
    assert_eq!(logger.in_flight(), 2);
    // a second flush does not write the batch again
    assert_eq!(logger.flush(), None);
    assert_eq!(logger.in_flight(), 2);
    assert_eq!(logger.flush_completed(true), 0);
    assert_eq!(logger.in_flight(), 0);
    assert_eq!(logger.waiting(), 0);
    assert_eq!(logger.flush(), None);
}

#[test]
fn records_that_arrive_during_a_write_wait_for_the_next_flush() {
    let mut logger = MongoLogger::with_policy("logs".to_string(), Severity::Trace, Delivery::Buffered);
    emit(&mut logger, Severity::Info, "one", 1);
    let first = logger.flush().unwrap();
    assert_eq!(first.len(), 1);
    emit(&mut logger, Severity::Info, "two", 2);
    assert_eq!(logger.waiting(), 1);
    assert_eq!(logger.in_flight(), 1);
    assert_eq!(logger.flush(), None);
    logger.flush_completed(true);
    assert_eq!(logger.waiting(), 1);
    let second = logger.flush().unwrap();
    assert_eq!(second.len(), 1);
    assert_eq!(second[0].message(), "two");
}

#[test]
fn flush_of_an_empty_buffer_asks_for_nothing_however_often() {
    let mut logger = MongoLogger::with_policy("logs".to_string(), Severity::Trace, Delivery::Buffered);
    for _ in 0..100 {
        assert_eq!(logger.flush(), None);
        assert_eq!(logger.waiting(), 0);
        assert_eq!(logger.in_flight(), 0);
    }
    emit(&mut logger, Severity::Info, "one", 1);
    assert!(logger.flush().is_some());
    logger.flush_completed(true);
    for _ in 0..100 {
        assert_eq!(logger.flush(), None);
    }
}

#[test]
fn a_failed_write_releases_the_batch_and_is_counted_as_lost() {
    let mut logger = MongoLogger::with_policy("logs".to_string(), Severity::Trace, Delivery::Buffered);
    emit(&mut logger, Severity::Info, "one", 1);
    emit(&mut logger, Severity::Info, "two", 2);
    emit(&mut logger, Severity::Info, "three", 3);
    assert!(logger.flush().is_some());
    assert_eq!(logger.flush_completed(false), 3);
    assert_eq!(logger.in_flight(), 0);
    assert_eq!(logger.waiting(), 0);
    // nothing is retried
    assert_eq!(logger.flush(), None);
}

#[test]
fn completion_without_a_batch_changes_nothing() {
    let mut logger = MongoLogger::with_policy("logs".to_string(), Severity::Trace, Delivery::Buffered);
    emit(&mut logger, Severity::Info, "one", 1);
    assert_eq!(logger.flush_completed(false), 0);
    assert_eq!(logger.waiting(), 1);
    assert_eq!(logger.in_flight(), 0);
}

#[test]
fn emits_go_on_the_same_whether_writes_fail_or_not() {
    let mut lucky = MongoLogger::with_policy("logs".to_string(), Severity::Info, Delivery::Buffered);
    let mut unlucky = MongoLogger::with_policy("logs".to_string(), Severity::Info, Delivery::Buffered);
    for round in 0..5i64 {
        let a = emit(&mut lucky, Severity::Warn, "again", round);
        let b = emit(&mut unlucky, Severity::Warn, "again", round);
        assert!(a.is_some());
        assert_eq!(a, b);
        assert_eq!(lucky.flush(), unlucky.flush());
        lucky.flush_completed(true);
        unlucky.flush_completed(false);
        assert_eq!(lucky.waiting(), unlucky.waiting());
        assert_eq!(lucky.in_flight(), unlucky.in_flight());
    }
}

#[test]
fn every_accepted_emit_of_an_immediate_sink_is_one_write() {
    let mut logger = MongoLogger::with_policy("logs".to_string(), Severity::Info, Delivery::Immediate);
    let mut lines = 0;
    let mut writes = Vec::new();
    for caller in 0..4i64 {
        for call in 0..25i64 {
            let message = format!("caller {} call {}", caller, call);
            let emission = emit(&mut logger, Severity::Info, &message, caller * 100 + call).unwrap();
            lines += 1;
            writes.push(emission.write.unwrap());
        }
    }
    assert_eq!(lines, 100);
    assert_eq!(writes.len(), 100);
    assert_eq!(writes[0].message(), "caller 0 call 0");
    assert_eq!(writes[99].message(), "caller 3 call 24");
    assert_eq!(writes[99].time(), 324);
}

#[test]
fn every_accepted_emit_of_a_buffered_sink_is_written_once() {
    let mut logger = MongoLogger::with_policy("logs".to_string(), Severity::Warn, Delivery::Buffered);
    let mut written = Vec::new();
    for call in 0..30i64 {
        let level = if call % 3 == 0 { Severity::Info } else { Severity::Error };
        emit(&mut logger, level, &format!("call {}", call), call);
        if call % 7 == 6 {
            if let Some(batch) = logger.flush() {
                written.extend(batch);
                logger.flush_completed(call % 2 == 0);
            }
        }
    }
    if let Some(batch) = logger.flush() {
        written.extend(batch);
        logger.flush_completed(true);
    }
    let times: Vec<i64> = written.iter().map(|record| record.time()).collect();
    let expected: Vec<i64> = (0..30).filter(|call| call % 3 != 0).collect();
    assert_eq!(times, expected);
    assert_eq!(logger.waiting(), 0);
}

#[test]
fn log_reads_the_clock() {
    let mut logger = MongoLogger::with_policy("logs".to_string(), Severity::Info, Delivery::Immediate);
    assert_eq!(logger.log(Severity::Debug, "app".to_string(), "quiet".to_string()), None);
    let emission = logger.log(Severity::Info, "app".to_string(), "now".to_string()).unwrap();
    let record = emission.write.unwrap();
    assert!(record.time() > 1_577_836_800_000);
    assert_eq!(record.id(), None);
    assert_eq!(record.level(), Severity::Info);
    assert_eq!(record.target(), "app");
    assert_eq!(record.message(), "now");
    assert_eq!(emission.line, record.console_line());
    assert!(emission.line.starts_with("[20"));
    assert!(emission.line.ends_with(" UTC] app - INFO - now"));
}

#[test]
fn another_order_of_the_same_emits_gives_the_same_writes() {
    let calls: Vec<(Severity, &str, i64)> = vec![
        (Severity::Error, "a", 1),
        (Severity::Debug, "b", 2),
        (Severity::Info, "c", 3),
        (Severity::Warn, "d", 4),
        (Severity::Trace, "e", 5),
    ];
    let mut forward = MongoLogger::with_policy("logs".to_string(), Severity::Info, Delivery::Immediate);
    let mut backward = MongoLogger::with_policy("logs".to_string(), Severity::Info, Delivery::Immediate);
    let mut one: Vec<i64> = calls
        .iter()
        .filter_map(|(level, message, now)| emit(&mut forward, *level, message, *now))
        .map(|emission| emission.write.unwrap().time())
        .collect();
    let mut other: Vec<i64> = calls
        .iter()
        .rev()
        .filter_map(|(level, message, now)| emit(&mut backward, *level, message, *now))
        .map(|emission| emission.write.unwrap().time())
        .collect();
    assert_eq!(one, vec![1, 3, 4]);
    assert_eq!(other, vec![4, 3, 1]);
    one.sort();
    other.sort();
    assert_eq!(one, other);
}
