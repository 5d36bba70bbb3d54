//! Points in time.

use vstd::prelude::*;

verus! {

/// A point in time in UTC: seconds since the start of 1970, and nanoseconds into that second.
#[derive(Debug, Clone, Copy, PartialEq, Eq, Structural)]
pub struct Timestamp {
    pub secs: i64,
    pub nanos: u32,
}

/// Whether `a` is earlier than `b`.
pub open spec fn earlier(a: Timestamp, b: Timestamp) -> bool {
    a.secs < b.secs || (a.secs == b.secs && a.nanos < b.nanos)
}

/// Whether `a` is earlier than `b`.
pub fn is_earlier(a: Timestamp, b: Timestamp) -> (r: bool)
    ensures
        r == earlier(a, b),
{
    a.secs < b.secs || (a.secs == b.secs && a.nanos < b.nanos)
}

/// What `chrono` writes for a point in time under the pattern `%m-%d %H:%M`; nothing where the point
/// is outside the range of its calendar.
pub uninterp spec fn short_stamp(secs: i64, nanos: u32) -> Option<Seq<char>>;

/// What `chrono` shows for a point in time; nothing where it is outside the range of its calendar.
pub uninterp spec fn full_stamp(secs: i64, nanos: u32) -> Option<Seq<char>>;

/// A point in time as a clock tells it: not before 1970, and less than one second past its seconds.
pub open spec fn clock_reading(t: Timestamp) -> bool {
    t.secs >= 0 && t.nanos < 1_000_000_000
}

/// `chrono::Utc::now`: the clock's reading, as the time that has passed since the start of 1970, with
/// the nanoseconds below one second. Which time it is, nothing here says. `chrono` panics where the
/// clock is set before 1970.
#[verifier::external_body]
pub(crate) fn utc_now() -> (r: Timestamp)
    ensures
        clock_reading(r),
{
    let now = chrono::Utc::now();
    Timestamp { secs: now.timestamp(), nanos: now.timestamp_subsec_nanos() }
}

/// `chrono::DateTime::format` with the pattern `%m-%d %H:%M`: the text depends on the point in time
/// alone.
#[verifier::external_body]
fn format_short(secs: i64, nanos: u32) -> (r: Option<String>)
    ensures
        crate::text::opt_view(r) == short_stamp(secs, nanos),
{
    chrono::DateTime::from_timestamp(secs, nanos).map(|t| t.format("%m-%d %H:%M").to_string())
}

/// `chrono::DateTime`'s own text form: it depends on the point in time alone.
#[verifier::external_body]
fn format_full(secs: i64, nanos: u32) -> (r: Option<String>)
    ensures
        crate::text::opt_view(r) == full_stamp(secs, nanos),
{
    chrono::DateTime::from_timestamp(secs, nanos).map(|t| t.to_string())
}

/// Month, day, hour and minute of a point in time; nothing outside the calendar's range.
pub fn show_short(t: Timestamp) -> (r: String)
    ensures
        r@ == crate::text::opt_or_empty(short_stamp(t.secs, t.nanos)),
{
    match format_short(t.secs, t.nanos) {
        Some(text) => text,
        None => String::new(),
    }
}

/// The full text form of a point in time; nothing outside the calendar's range.
pub fn show_full(t: Timestamp) -> (r: String)
    ensures
        r@ == crate::text::opt_or_empty(full_stamp(t.secs, t.nanos)),
{
    match format_full(t.secs, t.nanos) {
        Some(text) => text,
        None => String::new(),
    }
}

/// The order of points in time is strict and total.
pub proof fn law_earlier_is_an_order(a: Timestamp, b: Timestamp, c: Timestamp)
    ensures
        !earlier(a, a),
        earlier(a, b) && earlier(b, c) ==> earlier(a, c),
        earlier(a, b) || earlier(b, a) || a == b,
{
}

} // verus!
