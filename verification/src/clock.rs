//! The wall clock and the text of an instant, both taken from outside.

use vstd::prelude::*;

verus! {

/// The text that stands for an instant in a console line: date, time of day and
/// the zone `UTC`, for the instant `millis` milliseconds after the Unix epoch.
pub uninterp spec fn utc_text(millis: i64) -> Seq<char>;

/// `bson::DateTime::now`: the current instant in milliseconds since the Unix
/// epoch. Nothing is claimed of the value: it is whatever the system clock says.
#[verifier::external_body]
pub(crate) fn utc_now_millis() -> i64 {
    bson::DateTime::now().timestamp_millis()
}

/// `chrono::DateTime<Utc>`'s `Display`, on the instant that
/// `bson::DateTime::to_chrono` gives for `millis`. The text depends on `millis`
/// alone; instants beyond chrono's range are shown as its nearest bound.
#[verifier::external_body]
pub(crate) fn render_utc(millis: i64) -> (text: String)
    ensures
        text@ == utc_text(millis),
{
    bson::DateTime::from_millis(millis).to_chrono().to_string()
}

} // verus!
