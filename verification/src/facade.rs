//! The logging entry point of a process: it takes one sink, once, and routes
//! every event to it.

use vstd::prelude::*;
use crate::logger::{
    batch_view, completion_outcome, emission_view, emit_outcome, flush_outcome, Emission,
    EmissionView, LoggerView, MongoLogger,
};
use crate::record::{LogMessage, RecordView};
use crate::severity::Severity;

verus! {

/// Why a sink was not installed.
#[derive(Clone, Copy, Debug, PartialEq, Eq, Structural)]
pub enum RegistrationError {
    /// A sink is installed already; it stays.
    AlreadyRegistered,
}

/// What a facade is: the installed sink, or none while it is unregistered.
pub type FacadeView = Option<LoggerView>;

/// The facade after an event, and what the event asks for: nothing while no
/// sink is installed, else what the installed sink makes of it.
pub open spec fn routed_emit(
    state: FacadeView,
    severity: Severity,
    source: Seq<char>,
    message: Seq<char>,
    now: i64,
) -> (FacadeView, Option<EmissionView>) {
    match state {
        None => (None, None),
        Some(sink) => {
            let (next, emission) = emit_outcome(sink, severity, source, message, now);
            (Some(next), emission)
        },
    }
}

/// The facade after a flush, and the batch that is handed out: none while no
/// sink is installed.
pub open spec fn routed_flush(state: FacadeView) -> (FacadeView, Option<Seq<RecordView>>) {
    match state {
        None => (None, None),
        Some(sink) => {
            let (next, batch) = flush_outcome(sink);
            (Some(next), batch)
        },
    }
}

/// The facade after a bulk write has completed.
pub open spec fn routed_completion(state: FacadeView) -> FacadeView {
    match state {
        None => None,
        Some(sink) => Some(completion_outcome(sink)),
    }
}

/// The facade after a registration: an unregistered one holds the sink, with
/// the given least severity; a registered one stays as it is.
pub open spec fn registration_outcome(state: FacadeView, sink: LoggerView, minimum: Severity) -> (
    FacadeView,
    Result<(), RegistrationError>,
) {
    match state {
        None => (Some(LoggerView { minimum, ..sink }), Ok(())),
        Some(_) => (state, Err(RegistrationError::AlreadyRegistered)),
    }
}

/// A registered facade stays registered and keeps its sink, whatever is routed
/// to it and whoever tries to register again.
pub proof fn lemma_registration_is_final(
    state: FacadeView,
    severity: Severity,
    source: Seq<char>,
    message: Seq<char>,
    now: i64,
    other: LoggerView,
)
    requires
        state is Some,
    ensures
        routed_emit(state, severity, source, message, now).0 is Some,
        routed_flush(state).0 is Some,
        routed_completion(state) is Some,
        registration_outcome(state, other, severity) == (
            state,
            Err::<(), RegistrationError>(RegistrationError::AlreadyRegistered),
        ),
{
}

/// An emission as a sequence: one element where there is one, else none.
pub open spec fn present(emission: Option<EmissionView>) -> Seq<EmissionView> {
    match emission {
        Some(emission) => seq![emission],
        None => seq![],
    }
}

/// What a sequence of emissions asks for, one by one.
pub open spec fn emissions_view(emissions: Seq<Emission>) -> Seq<EmissionView> {
    emissions.map_values(|emission: Emission| emission@)
}

/// The logging entry point. It starts unregistered and becomes registered
/// once; there is no way back.
#[derive(Debug)]
pub struct Facade {
    installed: Option<MongoLogger>,
}

impl View for Facade {
    type V = FacadeView;

    closed spec fn view(&self) -> FacadeView {
        match self.installed {
            Some(sink) => Some(sink@),
            None => None,
        }
    }
}

impl Facade {
    /// An unregistered facade.
    pub fn new() -> (facade: Facade)
        ensures
            facade@ is None,
    {
        Facade { installed: None }
    }

    /// Whether a sink is installed.
    pub fn is_registered(&self) -> (registered: bool)
        ensures
            registered == (self@ is Some),
    {
        self.installed.is_some()
    }

    /// The installed sink, if there is one.
    pub fn sink(&self) -> (sink: Option<&MongoLogger>)
        ensures
            sink is Some <==> self@ is Some,
            sink matches Some(installed) ==> self@ == Some(installed@),
    {
        self.installed.as_ref()
    }

    /// Installs the sink, with the least severity that it accepts from now on.
    /// A second registration fails and leaves the first sink in place.
    pub fn register(&mut self, sink: MongoLogger, minimum_severity: Severity) -> (result: Result<
        (),
        RegistrationError,
    >)
        ensures
            (final(self)@, result) == registration_outcome(old(self)@, sink@, minimum_severity),
    {
        if self.installed.is_some() {
            return Err(RegistrationError::AlreadyRegistered);
        }
        self.installed = Some(sink.restricted_to(minimum_severity));
        Ok(())
    }

    /// Whether an event of this severity would be processed: a sink is
    /// installed and accepts the severity.
    pub fn enabled(&self, level: Severity) -> (accepted: bool)
        ensures
            accepted == match self@ {
                Some(sink) => sink.accepts(level),
                None => false,
            },
    {
        match &self.installed {
            Some(sink) => sink.enabled(level),
            None => false,
        }
    }

    /// Routes one event that was seen at `now`.
    pub fn emit(&mut self, level: Severity, target: String, message: String, now: i64) -> (out:
        Option<Emission>)
        ensures
            (final(self)@, emission_view(out)) == routed_emit(
                old(self)@,
                level,
                target@,
                message@,
                now,
            ),
    {
        match &mut self.installed {
            Some(sink) => sink.emit(level, target, message, now),
            None => None,
        }
    }

    /// Routes one event that is seen now, by the system clock.
    pub fn log(&mut self, level: Severity, target: String, message: String) -> (out: Option<
        Emission,
    >)
        ensures
            exists|now: i64|
                (final(self)@, emission_view(out)) == #[trigger] routed_emit(
                    old(self)@,
                    level,
                    target@,
                    message@,
                    now,
                ),
    {
        let ghost source = target@;
        let ghost text = message@;
        let ghost before = self@;
        let ghost mut seen: i64 = 0;
        let out = match &mut self.installed {
            Some(sink) => {
                let ghost sink_before = sink@;
                let out = sink.log(level, target, message);
                proof {
                    seen = choose|now: i64|
                        (sink@, emission_view(out)) == #[trigger] emit_outcome(
                            sink_before,
                            level,
                            source,
                            text,
                            now,
                        );
                }
                out
            },
            None => None,
        };
        assert((self@, emission_view(out)) == routed_emit(before, level, source, text, seen));
        out
    }

    /// Routes a flush.
    pub fn flush(&mut self) -> (batch: Option<Vec<LogMessage>>)
        ensures
            (final(self)@, batch_view(batch)) == routed_flush(old(self)@),
    {
        match &mut self.installed {
            Some(sink) => sink.flush(),
            None => None,
        }
    }

    /// Routes the completion of a bulk write. Returns how many records were
    /// lost.
    pub fn flush_completed(&mut self, succeeded: bool) -> (lost: usize)
        ensures
            final(self)@ == routed_completion(old(self)@),
            lost == match old(self)@ {
                Some(sink) if !succeeded => sink.in_flight.len(),
                _ => 0,
            },
    {
        match &mut self.installed {
            Some(sink) => sink.flush_completed(succeeded),
            None => 0,
        }
    }
}

} // verus!
