//! A structured log sink: log events become durable records for a document
//! store, mirrored as text lines for a local console.
//!
//! The library decides; the program around it performs the console and
//! network writes that the decisions call for.

pub mod clock;
pub mod document;
pub mod facade;
pub mod logger;
pub mod record;
pub mod severity;
pub mod trace;

pub use document::{DecodeError, RecordField};
pub use facade::{Facade, RegistrationError};
pub use logger::{Delivery, Emission, MongoLogger};
pub use record::{Identity, LogMessage};
pub use severity::Severity;

use vstd::prelude::*;
use vstd::string::StringExecFns;
use crate::facade::{emissions_view, present, routed_emit, FacadeView};
use crate::logger::{emission_view, EmissionView};

verus! {

/// The facade after the three statements of `test`, and what they ask for, in
/// order: a debug, an info and a warning statement, all seen at `now`.
pub open spec fn test_outcome(state: FacadeView, now: i64) -> (FacadeView, Seq<EmissionView>) {
    let (first, debug) = routed_emit(state, Severity::Debug, "mongo_logger"@, "Debug Log"@, now);
    let (second, info) = routed_emit(first, Severity::Info, "mongo_logger"@, "Info Log"@, now);
    let (third, warn) = routed_emit(second, Severity::Warn, "mongo_logger"@, "Warning 2"@, now);
    (third, present(debug) + present(info) + present(warn))
}

/// Sends three statements through the facade, as a program would on its way:
/// one for debugging, one for information, one warning.
pub fn test(facade: &mut Facade, now: i64) -> (out: Vec<Emission>)
    ensures
        (final(facade)@, emissions_view(out@)) == test_outcome(old(facade)@, now),
{
    let mut out: Vec<Emission> = Vec::new();
    let debug = facade.emit(
        Severity::Debug,
        String::from_str("mongo_logger"),
        String::from_str("Debug Log"),
        now,
    );
    if let Some(emission) = debug {
        out.push(emission);
    }
    let ghost after_debug = emissions_view(out@);
    assert(after_debug =~= present(emission_view(debug)));
    let info = facade.emit(
        Severity::Info,
        String::from_str("mongo_logger"),
        String::from_str("Info Log"),
        now,
    );
    if let Some(emission) = info {
        out.push(emission);
    }
    let ghost after_info = emissions_view(out@);
    assert(after_info =~= after_debug + present(emission_view(info)));
    let warn = facade.emit(
        Severity::Warn,
        String::from_str("mongo_logger"),
        String::from_str("Warning 2"),
        now,
    );
    if let Some(emission) = warn {
        out.push(emission);
    }
    assert(emissions_view(out@) =~= after_info + present(emission_view(warn)));
    out
}

} // verus!
