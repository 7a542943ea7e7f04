//! The structured representation of one log event.

use vstd::prelude::*;
use vstd::string::StringExecFns;
use crate::clock::{render_utc, utc_now_millis, utc_text};
use crate::severity::Severity;

verus! {

/// The unique id that the store assigns to a persisted record: twelve bytes.
pub type Identity = [u8; 12];

/// What a record is, as plain values.
pub struct RecordView {
    /// The id that the store assigned, absent until it did.
    pub identity: Option<Identity>,
    /// Milliseconds since the Unix epoch, UTC.
    pub timestamp: i64,
    pub severity: Severity,
    /// Where the event came from, as the producer names it.
    pub source: Seq<char>,
    /// The rendered text of the event.
    pub message: Seq<char>,
}

/// The record that `build` makes of an event seen at `now`.
pub open spec fn built_record(
    severity: Severity,
    source: Seq<char>,
    message: Seq<char>,
    now: i64,
) -> RecordView {
    RecordView { identity: None, timestamp: now, severity, source, message }
}

/// The console line of a record: `[<instant>] <source> - <severity> - <message>`.
pub open spec fn console_line_of(record: RecordView) -> Seq<char> {
    "["@ + utc_text(record.timestamp) + "] "@ + record.source + " - "@
        + record.severity.spec_name() + " - "@ + record.message
}

/// One log event, ready to be persisted.
#[derive(Debug, PartialEq, Eq)]
pub struct LogMessage {
    id: Option<Identity>,
    time: i64,
    level: Severity,
    target: String,
    message: String,
}

impl View for LogMessage {
    type V = RecordView;

    closed spec fn view(&self) -> RecordView {
        RecordView {
            identity: self.id,
            timestamp: self.time,
            severity: self.level,
            source: self.target@,
            message: self.message@,
        }
    }
}

impl LogMessage {
    /// Makes the record of an event that was seen at `now`. The record has no
    /// identity: only the store gives one.
    pub fn build(level: Severity, target: String, message: String, now: i64) -> (record: LogMessage)
        ensures
            record@ == built_record(level, target@, message@, now),
    {
        LogMessage { id: None, time: now, level, target, message }
    }

    /// Makes the record of an event that is seen now, by the system clock.
    pub fn new(level: Severity, target: String, message: String) -> (record: LogMessage)
        ensures
            record@ == built_record(level, target@, message@, record@.timestamp),
    {
        let now = utc_now_millis();
        LogMessage::build(level, target, message, now)
    }

    /// The identity that the store assigned, if it did.
    pub fn id(&self) -> (id: Option<Identity>)
        ensures
            id == self@.identity,
    {
        self.id
    }

    /// When the event was seen: milliseconds since the Unix epoch, UTC.
    pub fn time(&self) -> (time: i64)
        ensures
            time == self@.timestamp,
    {
        self.time
    }

    /// The severity of the event.
    pub fn level(&self) -> (level: Severity)
        ensures
            level == self@.severity,
    {
        self.level
    }

    /// Where the event came from.
    pub fn target(&self) -> (target: &str)
        ensures
            target@ == self@.source,
    {
        self.target.as_str()
    }

    /// The rendered text of the event.
    pub fn message(&self) -> (message: &str)
        ensures
            message@ == self@.message,
    {
        self.message.as_str()
    }

    /// Records the identity that the store assigned. An identity is written
    /// once: a record that has one keeps it, and the call says so by `false`.
    pub fn assign_identity(&mut self, id: Identity) -> (assigned: bool)
        ensures
            assigned == (old(self)@.identity is None),
            assigned ==> final(self)@ == (RecordView { identity: Some(id), ..old(self)@ }),
            !assigned ==> final(self)@ == old(self)@,
    {
        if self.id.is_none() {
            self.id = Some(id);
            true
        } else {
            false
        }
    }

    /// A second record with the same contents.
    pub fn duplicate(&self) -> (copy: LogMessage)
        ensures
            copy@ == self@,
    {
        LogMessage {
            id: self.id,
            time: self.time,
            level: self.level,
            target: self.target.clone(),
            message: self.message.clone(),
        }
    }

    /// The line that mirrors this record on the console.
    pub fn console_line(&self) -> (line: String)
        ensures
            line@ == console_line_of(self@),
    {
        let instant = render_utc(self.time);
        let level = self.level.name();
        let mut line = String::from_str("[");
        line.append(instant.as_str());
        line.append("] ");
        line.append(self.target.as_str());
        line.append(" - ");
        line.append(level.as_str());
        line.append(" - ");
        line.append(self.message.as_str());
        line
    }
}

} // verus!
