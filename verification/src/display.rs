//! Text for the presentation of an event: the time as a date, and the mark
//! that tells an entry from an exit.

use vstd::prelude::*;
use crate::event::{MethodEvent, MethodView};

verus! {

/// The RFC 3339 text of the instant `micros` microseconds after the Unix
/// epoch, in UTC; `None` for an instant beyond the dates that can be
/// written.
pub uninterp spec fn rfc3339_of_micros(micros: i64) -> Option<Seq<char>>;

/// Writes a timestamp as a date.
///
/// Stands for `chrono::DateTime::from_timestamp_micros`, which gives no date
/// for a timestamp out of its range, followed by `DateTime::to_rfc3339` on
/// the date it gives. Both depend on the timestamp alone.
#[verifier::external_body]
fn format_micros(micros: i64) -> (text: Option<String>)
    ensures
        text.deep_view() == rfc3339_of_micros(micros),
{
    match chrono::DateTime::from_timestamp_micros(micros) {
        Some(instant) => Some(instant.to_rfc3339()),
        None => None,
    }
}

/// The time of an event as it is shown, `None` where the timestamp is beyond
/// the dates that can be written.
pub fn timestamp_label(timestamp: i64) -> (label: Option<String>)
    ensures
        label.deep_view() == rfc3339_of_micros(timestamp),
{
    format_micros(timestamp)
}

/// The mark shown for a method event: `->` for an entry, `<-` for an exit.
pub open spec fn arrow_of(event: MethodView) -> Seq<char> {
    match event {
        MethodView::Entry { .. } => "->"@,
        MethodView::Exit { .. } => "<-"@,
    }
}

/// The mark shown for a method event.
pub fn arrow(event: &MethodEvent) -> (mark: &'static str)
    ensures
        mark@ == arrow_of(event@),
{
    match event {
        MethodEvent::Entry { .. } => "->",
        MethodEvent::Exit { .. } => "<-",
    }
}

} // verus!
