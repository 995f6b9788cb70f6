//! Points in time, held as seconds and nanoseconds since the Unix epoch.

use vstd::prelude::*;

verus! {

/// A point in time in UTC: whole seconds since 1970-01-01T00:00:00Z and the
/// nanoseconds within that second (above 999 999 999 only in a leap second).
#[derive(Clone, Copy, Debug, PartialEq, Eq, Structural)]
pub struct Timestamp {
    pub secs: i64,
    pub nanos: u32,
}

/// What parsing `text` as a `chrono::DateTime<Utc>` gives: its seconds and
/// nanoseconds, or the text of the parse error.
pub uninterp spec fn utc_parse(text: Seq<char>) -> Result<(i64, u32), Seq<char>>;

/// Calls `<chrono::DateTime<Utc> as FromStr>::from_str` (a relaxed RFC 3339
/// reader) and takes `timestamp` and `timestamp_subsec_nanos` of the result,
/// or the `Display` text of the error. The contract claims that the outcome
/// is a function of `text` alone.
#[verifier::external_body]
pub fn parse_timestamp(text: &str) -> (r: Result<Timestamp, String>)
    ensures
        match r {
            Ok(t) => utc_parse(text@) == Ok::<(i64, u32), Seq<char>>((t.secs, t.nanos)),
            Err(m) => utc_parse(text@) == Err::<(i64, u32), Seq<char>>(m@),
        },
{
    match text.parse::<chrono::DateTime<chrono::Utc>>() {
        Ok(d) => Ok(Timestamp { secs: d.timestamp(), nanos: d.timestamp_subsec_nanos() }),
        Err(e) => Err(e.to_string()),
    }
}

/// Calls `chrono::Utc::now`: the system clock's reading, which nothing
/// else determines. It panics when the clock reads before 1970, so a
/// reading that comes back is at or after the epoch, and its nanosecond part
/// is that of a `Duration`, under one second.
#[verifier::external_body]
pub fn now() -> (r: Timestamp)
    ensures
        r.secs >= 0,
        r.nanos < 1_000_000_000,
{
    let d = chrono::Utc::now();
    Timestamp { secs: d.timestamp(), nanos: d.timestamp_subsec_nanos() }
}

} // verus!
