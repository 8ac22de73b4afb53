//! Instants in UTC, as seconds and nanoseconds since the Unix epoch.

use vstd::prelude::*;

verus! {

/// An instant in UTC: whole seconds since the Unix epoch and the
/// nanoseconds past that second.
#[derive(Clone, Copy, Debug, PartialEq, Eq, Structural)]
pub struct Timestamp {
    pub secs: i64,
    pub nanos: u32,
}

/// The instant as nanoseconds since the Unix epoch.
pub open spec fn instant(t: Timestamp) -> int {
    t.secs * 1_000_000_000 + t.nanos
}

/// The instant `ms` milliseconds after `t`, with its nanoseconds normalised
/// below one second.
pub fn add_millis(t: Timestamp, ms: u64) -> (r: Timestamp)
    requires
        ms <= 1_000_000,
        t.secs <= i64::MAX - 1_010,
    ensures
        instant(r) == instant(t) + ms * 1_000_000,
        r.nanos < 1_000_000_000,
{
    let total: u64 = t.nanos as u64 + (ms % 1000) * 1_000_000;
    let carry: u64 = ms / 1000 + total / 1_000_000_000;
    let secs: i64 = t.secs + carry as i64;
    let nanos: u32 = (total % 1_000_000_000) as u32;
    let r = Timestamp { secs, nanos };
    assert(instant(r) == instant(t) + ms * 1_000_000) by (nonlinear_arith)
        requires
            total == t.nanos + (ms % 1000) * 1_000_000,
            carry == ms / 1000 + total / 1_000_000_000,
            secs == t.secs + carry,
            nanos == total % 1_000_000_000,
            instant(r) == secs * 1_000_000_000 + nanos,
            instant(t) == t.secs * 1_000_000_000 + t.nanos,
    {
        assert(ms == (ms / 1000) * 1000 + ms % 1000);
        assert(total == (total / 1_000_000_000) * 1_000_000_000 + total % 1_000_000_000);
    }
    r
}

/// The instant that an RFC 3339 text denotes, as (seconds, nanoseconds) in
/// UTC, or `None` where chrono refuses the text.
pub uninterp spec fn rfc3339_instant(text: Seq<char>) -> Option<(i64, u32)>;

/// Calls `chrono::DateTime::parse_from_rfc3339` and converts the parsed
/// instant to UTC. The contract claims only that the result is a function of
/// the text: the name `rfc3339_instant` applied to it.
#[verifier::external_body]
fn parse_rfc3339(text: &str) -> (parsed: Option<(i64, u32)>)
    ensures
        parsed == rfc3339_instant(text@),
{
    match chrono::DateTime::parse_from_rfc3339(text) {
        Ok(dt) => {
            let utc = dt.with_timezone(&chrono::Utc);
            Some((utc.timestamp(), utc.timestamp_subsec_nanos()))
        },
        Err(_) => None,
    }
}

/// The timestamp for a parsed instant, `None` where the text did not parse.
pub fn timestamp_from_parse(parsed: Option<(i64, u32)>) -> (t: Option<Timestamp>)
    ensures
        t == (match parsed {
            Some((s, n)) => Some(Timestamp { secs: s, nanos: n }),
            None => None::<Timestamp>,
        }),
{
    match parsed {
        Some((s, n)) => Some(Timestamp { secs: s, nanos: n }),
        None => None,
    }
}

/// Parses an RFC 3339 date-and-time text into a UTC timestamp.
pub fn parse_timestamp(text: &str) -> (t: Option<Timestamp>)
    ensures
        t == (match rfc3339_instant(text@) {
            Some((s, n)) => Some(Timestamp { secs: s, nanos: n }),
            None => None::<Timestamp>,
        }),
{
    timestamp_from_parse(parse_rfc3339(text))
}

} // verus!
