//! Wall-clock time and RFC 3339 timestamps, through `chrono`.
//!
//! Instants are carried through the library as whole seconds since the Unix
//! epoch (UTC) and the nanoseconds within that second, the values
//! `chrono::DateTime::<Utc>::timestamp` and `timestamp_subsec_nanos` give.

use std::fmt::Write;
use vstd::prelude::*;

verus! {

/// An instant in UTC: seconds since the Unix epoch, and nanoseconds within
/// that second (at least a second's worth only within a leap second).
#[derive(Debug, Clone, Copy, PartialEq, Eq, Structural)]
pub struct UtcInstant {
    pub secs: i64,
    pub nanos: u32,
}

/// The last second `chrono` can represent, that of `DateTime::<Utc>::MAX_UTC`
/// (+262142-12-31T23:59:59.999999999Z), in seconds since the epoch.
pub const MAX_UTC_SECS: i64 = 8210266876799;

/// Calls `chrono::Utc::now()` and returns its seconds and nanoseconds
/// (`timestamp`, `timestamp_subsec_nanos`). The value is the machine's
/// clock: nothing is promised of it.
#[verifier::external_body]
pub(crate) fn now_utc() -> (t: UtcInstant) {
    let now = chrono::Utc::now();
    UtcInstant { secs: now.timestamp(), nanos: now.timestamp_subsec_nanos() }
}

/// What `chrono::DateTime::parse_from_rfc3339` makes of a text, as the UTC
/// seconds and nanoseconds of the instant; `None` where it returns an error.
pub uninterp spec fn rfc3339_instant(text: Seq<char>) -> Option<(i64, u32)>;

/// The instant of a seconds-and-nanoseconds pair.
pub open spec fn instant_of(p: Option<(i64, u32)>) -> Option<UtcInstant> {
    match p {
        Some((secs, nanos)) => Some(UtcInstant { secs, nanos }),
        None => None,
    }
}

/// The instant a positive `d` seconds after `t`, as
/// `DateTime + TimeDelta::seconds(d)` gives it: the seconds move and the
/// nanoseconds stay, but for an instant within a leap second, which leaves
/// the leap second first.
pub open spec fn seconds_after(t: UtcInstant, d: int) -> UtcInstant {
    UtcInstant {
        secs: (t.secs + d) as i64,
        nanos: if t.nanos >= 1_000_000_000 {
            (t.nanos - 1_000_000_000) as u32
        } else {
            t.nanos
        },
    }
}

/// The second of its day at which an instant `secs` after the epoch falls.
pub open spec fn time_of_day_spec(secs: int) -> int {
    secs % 86_400
}

/// The second of its day at which an instant `secs` after the epoch falls.
pub(crate) fn time_of_day(secs: i64) -> (s: i64)
    ensures
        s == time_of_day_spec(secs as int),
        0 <= s < 86_400,
{
    let r: i64 = secs % 86_400;
    if r < 0 {
        r + 86_400
    } else {
        r
    }
}

/// The time from `t` to `now` in nanoseconds, as `now - t` (a `TimeDelta`)
/// measures it: an instant within a leap second counts that second when the
/// other instant lies later, resp. earlier, in its day.
pub open spec fn nanos_between(t: UtcInstant, now: UtcInstant) -> int {
    let base = (now.secs - t.secs) * 1_000_000_000 + now.nanos - t.nanos;
    if time_of_day_spec(now.secs as int) > time_of_day_spec(t.secs as int) && t.nanos >= 1_000_000_000 {
        base + 1_000_000_000
    } else if time_of_day_spec(now.secs as int) < time_of_day_spec(t.secs as int) && now.nanos
        >= 1_000_000_000 {
        base - 1_000_000_000
    } else {
        base
    }
}

/// Calls `chrono::DateTime::parse_from_rfc3339(text)` and converts a success
/// to its UTC seconds and nanoseconds (`with_timezone(&Utc)`, then
/// `timestamp` and `timestamp_subsec_nanos`). The contract names the result
/// only: it is a function of the text alone.
#[verifier::external_body]
pub(crate) fn parse_rfc3339(text: &str) -> (res: Option<UtcInstant>)
    ensures
        match res {
            Some(t) => rfc3339_instant(text@) == Some((t.secs, t.nanos)),
            None => rfc3339_instant(text@) is None,
        },
{
    match chrono::DateTime::parse_from_rfc3339(text) {
        Ok(d) => {
            let u = d.with_timezone(&chrono::Utc);
            Some(UtcInstant { secs: u.timestamp(), nanos: u.timestamp_subsec_nanos() })
        },
        Err(_) => None,
    }
}

/// What `chrono` writes for the UTC instant of `secs` seconds and `nanos`
/// nanoseconds after the epoch with the strftime-style format `fmt`; `None`
/// when the instant is outside what `chrono` represents, or the format
/// cannot be written.
pub uninterp spec fn utc_format_text(secs: i64, nanos: u32, fmt: Seq<char>) -> Option<Seq<char>>;

/// Calls `chrono::DateTime::from_timestamp(t.secs, t.nanos)` and writes the
/// instant with `format(fmt)`; `None` where `from_timestamp` returns none or
/// writing the format fails. The text is named: a function of the instant
/// and `fmt` alone.
#[verifier::external_body]
pub(crate) fn format_utc(t: UtcInstant, fmt: &str) -> (s: Option<String>)
    ensures
        match s {
            Some(x) => utc_format_text(t.secs, t.nanos, fmt@) == Some(x@),
            None => utc_format_text(t.secs, t.nanos, fmt@) is None,
        },
{
    let d = match chrono::DateTime::from_timestamp(t.secs, t.nanos) {
        Some(d) => d,
        None => return None,
    };
    let mut out = String::new();
    match write!(out, "{}", d.format(fmt)) {
        Ok(()) => Some(out),
        Err(_) => None,
    }
}

} // verus!
