//! Timestamps as whole seconds since the Unix epoch (UTC), and their text form.
use vstd::prelude::*;

verus! {

/// The one text format of timestamps, shared with the persisted survey rows.
pub const TIME_FORMAT: &'static str = "%Y-%m-%d %H:%M:%S";

/// Seconds in a minute, and in a day.
pub const MINUTE: i64 = 60;
pub const DAY: i64 = 86400;

/// What chrono renders for the instant `secs` (seconds since the epoch, UTC) in format `fmt`;
/// nothing where chrono cannot represent the instant.
pub uninterp spec fn time_text(secs: i64, fmt: Seq<char>) -> Option<Seq<char>>;

/// What chrono reads from `s` in format `fmt`, as seconds since the epoch (UTC), if it parses.
pub uninterp spec fn parsed_time(s: Seq<char>, fmt: Seq<char>) -> Option<i64>;

/// Relies on `chrono::DateTime::from_timestamp` and `format`: the instant as text, when
/// chrono can represent it. Rendering panics on a malformed format, so only the shared one
/// is admitted.
#[verifier::external_body]
pub(crate) fn format_time(secs: i64, fmt: &str) -> (r: Option<String>)
    requires
        fmt@ == TIME_FORMAT@,
    ensures
        r matches Some(s) ==> time_text(secs, fmt@) == Some(s@),
        r is None ==> time_text(secs, fmt@) is None,
{
    match chrono::DateTime::<chrono::Utc>::from_timestamp(secs, 0) {
        Some(t) => Some(t.format(fmt).to_string()),
        None => None,
    }
}

/// Relies on `chrono::NaiveDateTime::parse_from_str`, read as UTC: the instant the text
/// names in the format, if it parses.
#[verifier::external_body]
pub(crate) fn parse_time(s: &str, fmt: &str) -> (r: Option<i64>)
    ensures
        r == parsed_time(s@, fmt@),
{
    match chrono::NaiveDateTime::parse_from_str(s, fmt) {
        Ok(t) => Some(t.and_utc().timestamp()),
        Err(_) => None,
    }
}

/// The instant as text in the shared format; empty where chrono cannot represent it.
pub open spec fn shown_time(secs: i64) -> Seq<char> {
    match time_text(secs, TIME_FORMAT@) {
        Some(t) => t,
        None => Seq::empty(),
    }
}

/// The instant as text in the shared format; empty where chrono cannot represent it.
pub fn time_to_text(secs: i64) -> (r: String)
    ensures
        r@ == shown_time(secs),
{
    match format_time(secs, TIME_FORMAT) {
        Some(s) => s,
        None => String::new(),
    }
}

/// The instant a text in the shared format names, if it parses.
pub fn text_to_time(s: &str) -> (r: Option<i64>)
    ensures
        r == parsed_time(s@, TIME_FORMAT@),
{
    parse_time(s, TIME_FORMAT)
}

} // verus!
