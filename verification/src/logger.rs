//! The sink: which events it accepts, what it asks to be printed and written
//! for each, and how it holds records back until they are flushed.

use vstd::prelude::*;
use crate::clock::utc_now_millis;
use crate::record::{built_record, console_line_of, LogMessage, RecordView};
use crate::severity::Severity;

verus! {

/// When an accepted record goes to the store.
#[derive(Clone, Copy, Debug, PartialEq, Eq, Structural)]
pub enum Delivery {
    /// Each record is written by itself, as soon as it is emitted.
    Immediate,
    /// Records wait in the buffer until a flush writes them in one batch.
    Buffered,
}

/// What a sink is, as plain values.
pub struct LoggerView {
    /// The name of the collection that the records go to.
    pub collection: Seq<char>,
    /// The least severity that is accepted.
    pub minimum: Severity,
    pub delivery: Delivery,
    /// The records of the batch that a bulk write has been handed and that has
    /// not completed, oldest first.
    pub in_flight: Seq<RecordView>,
    /// The records that were accepted and that no write has been handed yet,
    /// oldest first.
    pub waiting: Seq<RecordView>,
}

/// What one emit asks the caller to do.
pub struct EmissionView {
    pub line: Seq<char>,
    pub write: Option<RecordView>,
}

impl LoggerView {
    /// A sink that writes at once holds nothing back.
    pub open spec fn valid(self) -> bool {
        self.delivery == Delivery::Immediate ==> self.in_flight.len() == 0 && self.waiting.len()
            == 0
    }

    /// The buffer: every record that was accepted and not released yet.
    pub open spec fn pending(self) -> Seq<RecordView> {
        self.in_flight + self.waiting
    }

    /// Whether a record of this severity is processed.
    pub open spec fn accepts(self, severity: Severity) -> bool {
        severity.spec_at_least(self.minimum)
    }

    /// Whether a flush has anything to write and no earlier one is under way.
    pub open spec fn can_flush(self) -> bool {
        self.delivery == Delivery::Buffered && self.in_flight.len() == 0 && self.waiting.len() > 0
    }
}

/// The sink after an emit, and what the emit asks for. A record below the
/// least severity changes nothing and asks for nothing. An accepted one asks for
/// its console line; an immediate sink also asks for its write, a buffered
/// one keeps it as the newest pending record.
pub open spec fn emit_outcome(
    state: LoggerView,
    severity: Severity,
    source: Seq<char>,
    message: Seq<char>,
    now: i64,
) -> (LoggerView, Option<EmissionView>) {
    let record = built_record(severity, source, message, now);
    if !state.accepts(severity) {
        (state, None)
    } else if state.delivery == Delivery::Immediate {
        (state, Some(EmissionView { line: console_line_of(record), write: Some(record) }))
    } else {
        (
            LoggerView { waiting: state.waiting.push(record), ..state },
            Some(EmissionView { line: console_line_of(record), write: None }),
        )
    }
}

/// The sink after a flush, and the batch that the flush hands out for one bulk
/// write: all waiting records, which stay in the buffer until the write has
/// completed. Where there is nothing to write, or an earlier batch is still
/// under way, nothing changes and nothing is handed out.
pub open spec fn flush_outcome(state: LoggerView) -> (LoggerView, Option<Seq<RecordView>>) {
    if state.can_flush() {
        (
            LoggerView { in_flight: state.waiting, waiting: Seq::empty(), ..state },
            Some(state.waiting),
        )
    } else {
        (state, None)
    }
}

/// The sink after a bulk write has completed: the records of the batch are
/// released, the others stay.
pub open spec fn completion_outcome(state: LoggerView) -> LoggerView {
    LoggerView { in_flight: Seq::empty(), ..state }
}

/// What one emit asks the caller to do: print the line, then, where there is a
/// record, write it to the store.
#[derive(Debug, PartialEq, Eq)]
pub struct Emission {
    pub line: String,
    pub write: Option<LogMessage>,
}

impl View for Emission {
    type V = EmissionView;

    open spec fn view(&self) -> EmissionView {
        EmissionView {
            line: self.line@,
            write: match self.write {
                Some(record) => Some(record@),
                None => None,
            },
        }
    }
}

/// What an emit asks for, if anything.
pub open spec fn emission_view(emission: Option<Emission>) -> Option<EmissionView> {
    match emission {
        Some(emission) => Some(emission@),
        None => None,
    }
}

/// The records of a buffer or batch as plain values, in order.
pub open spec fn records_view(records: Seq<LogMessage>) -> Seq<RecordView> {
    records.map_values(|record: LogMessage| record@)
}

/// The batch that a flush hands out, if any.
pub open spec fn batch_view(batch: Option<Vec<LogMessage>>) -> Option<Seq<RecordView>> {
    match batch {
        Some(records) => Some(records_view(records@)),
        None => None,
    }
}

/// The sink. It owns the buffer of pending records; the handle of the store
/// stays with the caller, who performs the writes.
#[derive(Debug)]
pub struct MongoLogger {
    collection_name: String,
    minimum_severity: Severity,
    delivery: Delivery,
    in_flight: Vec<LogMessage>,
    logs: Vec<LogMessage>,
}

impl View for MongoLogger {
    type V = LoggerView;

    closed spec fn view(&self) -> LoggerView {
        LoggerView {
            collection: self.collection_name@,
            minimum: self.minimum_severity,
            delivery: self.delivery,
            in_flight: records_view(self.in_flight@),
            waiting: records_view(self.logs@),
        }
    }
}

impl MongoLogger {
    #[verifier::type_invariant]
    spec fn well_formed(self) -> bool {
        self@.valid()
    }

    /// A sink for the named collection that accepts every severity and writes
    /// each record at once.
    pub fn new(collection_name: String) -> (logger: MongoLogger)
        ensures
            logger@ == (LoggerView {
                collection: collection_name@,
                minimum: Severity::Trace,
                delivery: Delivery::Immediate,
                in_flight: Seq::empty(),
                waiting: Seq::empty(),
            }),
    {
        MongoLogger::with_policy(collection_name, Severity::Trace, Delivery::Immediate)
    }

    /// A sink for the named collection with the given least severity and
    /// delivery, and nothing pending.
    pub fn with_policy(
        collection_name: String,
        minimum_severity: Severity,
        delivery: Delivery,
    ) -> (logger: MongoLogger)
        ensures
            logger@ == (LoggerView {
                collection: collection_name@,
                minimum: minimum_severity,
                delivery,
                in_flight: Seq::empty(),
                waiting: Seq::empty(),
            }),
    {
        let logger = MongoLogger {
            collection_name,
            minimum_severity,
            delivery,
            in_flight: Vec::new(),
            logs: Vec::new(),
        };
        assert(logger@.in_flight =~= Seq::empty());
        assert(logger@.waiting =~= Seq::empty());
        logger
    }

    /// The same sink with another least severity.
    pub(crate) fn restricted_to(self, minimum_severity: Severity) -> (logger: MongoLogger)
        ensures
            logger@ == (LoggerView { minimum: minimum_severity, ..self@ }),
    {
        proof {
            use_type_invariant(&self);
        }
        MongoLogger {
            collection_name: self.collection_name,
            minimum_severity,
            delivery: self.delivery,
            in_flight: self.in_flight,
            logs: self.logs,
        }
    }

    /// The name of the collection that the records go to.
    pub fn collection_name(&self) -> (name: &str)
        ensures
            name@ == self@.collection,
    {
        self.collection_name.as_str()
    }

    /// The least severity that is accepted.
    pub fn minimum_severity(&self) -> (minimum: Severity)
        ensures
            minimum == self@.minimum,
    {
        self.minimum_severity
    }

    /// When accepted records go to the store.
    pub fn delivery(&self) -> (delivery: Delivery)
        ensures
            delivery == self@.delivery,
    {
        self.delivery
    }

    /// The number of records that wait for the next flush.
    pub fn waiting(&self) -> (count: usize)
        ensures
            count == self@.waiting.len(),
            self@.valid(),
    {
        proof {
            use_type_invariant(self);
        }
        self.logs.len()
    }

    /// The number of records of the batch whose write is under way.
    pub fn in_flight(&self) -> (count: usize)
        ensures
            count == self@.in_flight.len(),
    {
        self.in_flight.len()
    }

    /// Whether a record of this severity is processed: it is, where it is at
    /// least as severe as the sink's least severity.
    pub fn enabled(&self, level: Severity) -> (accepted: bool)
        ensures
            accepted == self@.accepts(level),
            accepted == level.spec_at_least(self@.minimum),
    {
        level.at_least(self.minimum_severity)
    }

    /// Processes one event that was seen at `now`.
    pub fn emit(&mut self, level: Severity, target: String, message: String, now: i64) -> (out:
        Option<Emission>)
        ensures
            (final(self)@, emission_view(out)) == emit_outcome(
                old(self)@,
                level,
                target@,
                message@,
                now,
            ),
    {
        if !self.enabled(level) {
            return None;
        }
        let record = LogMessage::build(level, target, message, now);
        let line = record.console_line();
        match self.delivery {
            Delivery::Immediate => Some(Emission { line, write: Some(record) }),
            Delivery::Buffered => {
                let ghost before = self.logs@;
                let mut logs: Vec<LogMessage> = Vec::new();
                core::mem::swap(&mut self.logs, &mut logs);
                logs.push(record);
                core::mem::swap(&mut self.logs, &mut logs);
                assert(records_view(self.logs@) =~= records_view(before).push(record@));
                Some(Emission { line, write: None })
            },
        }
    }

    /// Processes one event that is seen now, by the system clock.
    pub fn log(&mut self, level: Severity, target: String, message: String) -> (out: Option<
        Emission,
    >)
        ensures
            exists|now: i64|
                (final(self)@, emission_view(out)) == #[trigger] emit_outcome(
                    old(self)@,
                    level,
                    target@,
                    message@,
                    now,
                ),
    {
        if !self.enabled(level) {
            assert((self@, emission_view(None)) == emit_outcome(
                self@,
                level,
                target@,
                message@,
                0i64,
            ));
            return None;
        }
        let now = utc_now_millis();
        self.emit(level, target, message, now)
    }

    /// Hands out the waiting records for one bulk write, if there is anything
    /// to write and no earlier batch is under way.
    pub fn flush(&mut self) -> (batch: Option<Vec<LogMessage>>)
        ensures
            (final(self)@, batch_view(batch)) == flush_outcome(old(self)@),
    {
        let count = self.logs.len();
        if !matches!(self.delivery, Delivery::Buffered) || self.in_flight.len() != 0 || count == 0 {
            return None;
        }
        let mut batch: Vec<LogMessage> = Vec::new();
        let mut index: usize = 0;
        while index < count
            invariant
                index <= count,
                count == self.logs.len(),
                batch.len() == index,
                forall|i: int| 0 <= i < index ==> (#[trigger] batch[i])@ == self.logs[i]@,
            decreases count - index,
        {
            batch.push(self.logs[index].duplicate());
            index += 1;
        }
        assert(records_view(batch@) =~= records_view(self.logs@));
        assert(records_view(self.in_flight@) =~= Seq::empty());
        core::mem::swap(&mut self.in_flight, &mut self.logs);
        Some(batch)
    }

    /// Takes note that the bulk write of the last batch has completed, and
    /// releases the records of that batch, whether they were stored or not.
    /// Returns how many records were lost.
    pub fn flush_completed(&mut self, succeeded: bool) -> (lost: usize)
        ensures
            final(self)@ == completion_outcome(old(self)@),
            lost == if succeeded {
                0
            } else {
                old(self)@.in_flight.len()
            },
    {
        proof {
            use_type_invariant(&*self);
        }
        let released = self.in_flight.len();
        self.in_flight = Vec::new();
        assert(records_view(self.in_flight@) =~= Seq::empty());
        if succeeded {
            0
        } else {
            released
        }
    }
}

} // verus!
