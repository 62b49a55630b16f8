//! Calendar days of timestamps.

use vstd::prelude::*;
use crate::note::Timestamp;

verus! {

/// How the list writes a note's day: year, month and day of the month,
/// with `-` between them.
pub const DAY_FORMAT: &'static str = "%Y-%m-%d";

/// An instant in UTC, written out as `format` asks; `None` for an instant
/// outside the calendar's range or with a nanosecond count that no second
/// has.
pub uninterp spec fn instant_text(secs: i64, nanos: u32, format: Seq<char>) -> Option<Seq<char>>;

/// The calendar day of `date`, as the list shows it.
pub open spec fn day_text(date: Timestamp) -> Option<Seq<char>> {
    instant_text(date.secs, date.nanos, DAY_FORMAT@)
}

/// What `DateTime::from_timestamp` of chrono makes of `date`, formatted by
/// `DateTime::format` with `format`. The result depends on the arguments
/// alone: the time zone is UTC and no locale takes part. `from_timestamp`
/// gives `None` where it cannot represent the instant. Formatting fails on
/// a format string that chrono does not accept, so the `requires` admits
/// only [`DAY_FORMAT`], which it accepts.
#[verifier::external_body]
pub(crate) fn format_instant(date: Timestamp, format: &str) -> (text: Option<String>)
    requires
        format@ == DAY_FORMAT@,
    ensures
        match text {
            Some(t) => instant_text(date.secs, date.nanos, format@) == Some(t@),
            None => instant_text(date.secs, date.nanos, format@) is None,
        },
{
    match chrono::DateTime::from_timestamp(date.secs, date.nanos) {
        Some(instant) => Some(instant.format(format).to_string()),
        None => None,
    }
}

} // verus!
