//! Instants as plain values, and the two calls into chrono that read them.
use chrono::{DateTime, Local};
use vstd::prelude::*;

verus! {

/// An instant, as whole seconds and nanoseconds since the Unix epoch, with the
/// offset from UTC (in seconds, east positive) of the zone it is shown in.
#[derive(Clone, Copy, Debug, PartialEq, Eq, Structural)]
pub struct Timestamp {
    pub secs: i64,
    pub nanos: u32,
    pub offset: i32,
}

/// The instant that chrono reads from an RFC 2822 date, as seconds since the
/// epoch and nanoseconds within the second; nothing where the text is no
/// RFC 2822 date.
pub uninterp spec fn rfc2822_of(s: Seq<char>) -> Option<(i64, u32)>;

/// Relies on chrono's `DateTime::parse_from_rfc2822`, which either parses the
/// whole text as an RFC 2822 date or fails. The parsed value is moved into
/// the machine's time zone (`with_timezone(&Local)`, which keeps the instant)
/// and read back through `timestamp`, `timestamp_subsec_nanos` and
/// `local_minus_utc`. The offset depends on the machine: nothing is said of it.
#[verifier::external_body]
fn parse_rfc2822_local(s: &str) -> (r: Option<Timestamp>)
    ensures
        r is Some <==> rfc2822_of(s@) is Some,
        r matches Some(t) ==> rfc2822_of(s@) matches Some(p) && t.secs == p.0 && t.nanos == p.1,
{
    match DateTime::parse_from_rfc2822(s) {
        Ok(dt) => {
            let l = dt.with_timezone(&Local);
            Some(Timestamp { secs: l.timestamp(), nanos: l.timestamp_subsec_nanos(), offset: l.offset().local_minus_utc() })
        },
        Err(_) => None,
    }
}

impl Timestamp {
    /// Parses an RFC 2822 date and shows the instant it names in the
    /// machine's time zone; `None` where the text is no such date.
    pub fn from_rfc2822_local(s: &str) -> (r: Option<Timestamp>)
        ensures
            r is Some <==> rfc2822_of(s@) is Some,
            r matches Some(t) ==> rfc2822_of(s@) matches Some(p) && t.secs == p.0 && t.nanos
                == p.1,
    {
        parse_rfc2822_local(s)
    }
}

} // verus!
