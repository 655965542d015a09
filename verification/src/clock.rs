//! Instants, local calendar days and their text forms, through `chrono`.

use vstd::prelude::*;
use chrono::{Datelike, TimeZone, Timelike};

verus! {

/// A point in time: whole seconds since the Unix epoch and the nanoseconds
/// past that second.
#[derive(Debug, Clone, Copy)]
pub struct Instant {
    pub secs: i64,
    pub nanos: u32,
}

/// `a` is earlier than `b`.
pub open spec fn before(a: Instant, b: Instant) -> bool {
    a.secs < b.secs || (a.secs == b.secs && a.nanos < b.nanos)
}

/// Whether `a` is earlier than `b`.
pub fn is_before(a: Instant, b: Instant) -> (r: bool)
    ensures
        r == before(a, b),
{
    a.secs < b.secs || (a.secs == b.secs && a.nanos < b.nanos)
}

/// `a` moved by `delta` seconds, when that stays within `i64`.
pub fn shifted(a: Instant, delta: i64) -> (r: Option<Instant>)
    ensures
        match r {
            Some(b) => b.secs == a.secs + delta && b.nanos == a.nanos,
            None => !(i64::MIN <= a.secs + delta <= i64::MAX),
        },
{
    match a.secs.checked_add(delta) {
        Some(s) => Some(Instant { secs: s, nanos: a.nanos }),
        None => None,
    }
}

/// The time from `earlier` to `later` in nanoseconds.
pub open spec fn nanos_between(earlier: Instant, later: Instant) -> int {
    (later.secs - earlier.secs) * 1_000_000_000 + later.nanos - earlier.nanos
}

/// Whole minutes in `n` nanoseconds, rounded toward zero (what
/// `TimeDelta::num_minutes` gives).
pub open spec fn whole_minutes(n: int) -> int {
    if n >= 0 {
        n / 60_000_000_000
    } else {
        -((-n) / 60_000_000_000)
    }
}

/// Whole seconds in `n` nanoseconds, rounded toward zero (what
/// `TimeDelta::num_seconds` gives).
pub open spec fn whole_seconds(n: int) -> int {
    if n >= 0 {
        n / 1_000_000_000
    } else {
        -((-n) / 1_000_000_000)
    }
}

/// The whole minutes from `earlier` to `later`, rounded toward zero.
pub fn minutes_between(earlier: Instant, later: Instant) -> (m: i128)
    ensures
        m == whole_minutes(nanos_between(earlier, later)),
{
    let d: i128 = (later.secs as i128 - earlier.secs as i128) * 1_000_000_000 + later.nanos as i128
        - earlier.nanos as i128;
    if d >= 0 {
        d / 60_000_000_000
    } else {
        -((-d) / 60_000_000_000)
    }
}

/// The whole seconds from `earlier` to `later`, rounded toward zero.
pub fn seconds_between(earlier: Instant, later: Instant) -> (s: i128)
    ensures
        s == whole_seconds(nanos_between(earlier, later)),
{
    let d: i128 = (later.secs as i128 - earlier.secs as i128) * 1_000_000_000 + later.nanos as i128
        - earlier.nanos as i128;
    if d >= 0 {
        d / 1_000_000_000
    } else {
        -((-d) / 1_000_000_000)
    }
}

/// Calls `std::time::SystemTime::now` and measures it from the Unix epoch in
/// nanoseconds; nothing when the clock reads earlier than the epoch. The
/// value is the clock's and is left unsaid.
#[verifier::external_body]
pub(crate) fn nanos_since_epoch() -> (n: Option<u128>) {
    match std::time::SystemTime::now().duration_since(std::time::UNIX_EPOCH) {
        Ok(d) => Some(d.as_nanos()),
        Err(_) => None,
    }
}

/// An instant well inside the years 1 to 9999 (a day away from either end,
/// so that its local date is within them too), with its nanoseconds below
/// one second.
pub open spec fn ordinary_instant(secs: i64, nanos: u32) -> bool {
    -62135596800 + 86400 <= secs <= 253402300799 - 86400 && nanos < 1_000_000_000
}

/// The current instant read from the system clock, as `chrono::Utc::now`
/// reads it; nothing when the clock reads before the Unix epoch or beyond
/// what chrono represents.
pub fn utc_now() -> (t: Option<Instant>)
    ensures
        match t {
            Some(i) => utc_rfc3339_text(i.secs, i.nanos) is Some && i.secs >= 0 && i.nanos
                < 1_000_000_000,
            None => true,
        },
{
    let n = match nanos_since_epoch() {
        Some(n) => n,
        None => {
            return None;
        },
    };
    let secs = n / 1_000_000_000;
    if secs > i64::MAX as u128 {
        return None;
    }
    let t = Instant { secs: secs as i64, nanos: (n % 1_000_000_000) as u32 };
    match utc_rfc3339(t) {
        Some(_) => Some(t),
        None => None,
    }
}

/// `DateTime::<Utc>::from_timestamp(secs, nanos)` written by `to_rfc3339`,
/// when the instant is representable.
pub uninterp spec fn utc_rfc3339_text(secs: i64, nanos: u32) -> Option<Seq<char>>;

/// Calls `chrono::DateTime::<Utc>::to_rfc3339` on the instant `t`. The text
/// depends on the instant alone; its format is left unsaid. `from_timestamp`
/// accepts every instant of the years 1 to 9999 with a valid nanosecond.
#[verifier::external_body]
pub fn utc_rfc3339(t: Instant) -> (s: Option<String>)
    ensures
        match s {
            Some(x) => utc_rfc3339_text(t.secs, t.nanos) == Some(x@),
            None => utc_rfc3339_text(t.secs, t.nanos) == None::<Seq<char>>,
        },
        ordinary_instant(t.secs, t.nanos) ==> s is Some,
{
    match chrono::DateTime::<chrono::Utc>::from_timestamp(t.secs, t.nanos) {
        Some(d) => Some(d.to_rfc3339()),
        None => None,
    }
}

/// The instant that `DateTime::parse_from_rfc3339` reads from `s`, as
/// seconds since the epoch and sub-second nanoseconds.
pub uninterp spec fn rfc3339_instant(s: Seq<char>) -> Option<(i64, u32)>;

/// Calls `chrono::DateTime::parse_from_rfc3339`. The instant depends on the
/// text alone; which texts it accepts is left unsaid.
#[verifier::external_body]
pub fn parse_rfc3339(s: &str) -> (t: Option<Instant>)
    ensures
        match t {
            Some(i) => rfc3339_instant(s@) == Some((i.secs, i.nanos)),
            None => rfc3339_instant(s@) == None::<(i64, u32)>,
        },
{
    match chrono::DateTime::parse_from_rfc3339(s) {
        Ok(d) => Some(Instant { secs: d.timestamp(), nanos: d.timestamp_subsec_nanos() }),
        Err(_) => None,
    }
}

/// Calls `chrono::DateTime::with_timezone(&chrono::Local)` on the instant
/// `t` and reads the local date (as days from the Common Era, 1 January of
/// year 1 being day 1), hour and minute; the local date and time are
/// computed with `NaiveDateTime::checked_add_offset`, so an instant whose
/// local time leaves chrono's range gives nothing. They depend on the
/// machine's time zone; the contract states only the ranges that chrono's
/// `Timelike` documents for the hour and the minute, that an answer needs
/// an instant that `DateTime::<Utc>::from_timestamp` accepts (as for
/// `utc_rfc3339`), and that an instant of the years 1 to 9999 has one
/// (offsets are less than a day).
#[verifier::external_body]
pub fn local_calendar(t: Instant) -> (p: Option<(i32, u32, u32)>)
    ensures
        match p {
            Some(x) => x.1 < 24 && x.2 < 60,
            None => true,
        },
        p is Some ==> utc_rfc3339_text(t.secs, t.nanos) is Some,
        ordinary_instant(t.secs, t.nanos) ==> p is Some,
{
    let d = chrono::DateTime::<chrono::Utc>::from_timestamp(t.secs, t.nanos)?;
    let l = d.with_timezone(&chrono::Local);
    let n = l.naive_utc().checked_add_offset(*l.offset())?;
    Some((n.date().num_days_from_ce(), n.hour(), n.minute()))
}

/// The strftime patterns with which the library formats local times. Each
/// is valid, so that formatting with it does not fail.
pub open spec fn local_pattern(fmt: Seq<char>) -> bool {
    ||| fmt == "%Y-%m-%d %H:%M:%S%.3f %:z"@
    ||| fmt == "%Y-%m-%d %:z (24時間表記 %H:%M:%S, 12時間表記 %p %I:%M:%S)"@
    ||| fmt == "%Y-%m-%d %H:%M:%S %:z (%p %I:%M:%S)"@
    ||| fmt == "%H:%M"@
}

/// What `chrono::DateTime::format` with the pattern `pattern` writes for the
/// instant `(secs, nanos)` shown at the UTC offset of `offset` seconds.
pub uninterp spec fn local_text(secs: i64, nanos: u32, offset: i32, pattern: Seq<char>) -> Seq<char>;

/// Calls `chrono::DateTime::<chrono::Local>::format` with the pattern `fmt`
/// on the instant `t`, and returns the text with the UTC offset (in seconds,
/// `FixedOffset::local_minus_utc`) at which the instant was shown. Which
/// offset applies depends on the machine's time zone; the text depends on
/// the instant, that offset and the pattern alone, and chrono keeps offsets
/// under a day. There is a text exactly when `DateTime::<Utc>::from_timestamp`
/// accepts the instant, as for `utc_rfc3339`. Only the library's valid
/// patterns are admitted: formatting with an invalid one panics.
#[verifier::external_body]
pub fn local_format(t: Instant, fmt: &str) -> (s: Option<(String, i32)>)
    requires
        local_pattern(fmt@),
    ensures
        match s {
            Some((x, off)) => -86400 < off < 86400 && x@ == local_text(t.secs, t.nanos, off, fmt@),
            None => true,
        },
        s is Some <==> utc_rfc3339_text(t.secs, t.nanos) is Some,
{
    let d = chrono::DateTime::<chrono::Utc>::from_timestamp(t.secs, t.nanos)?;
    let l = d.with_timezone(&chrono::Local);
    Some((l.format(fmt).to_string(), l.offset().local_minus_utc()))
}

/// What `chrono::DateTime::to_rfc3339` writes for the instant `(secs, nanos)`
/// shown at the UTC offset of `offset` seconds.
pub uninterp spec fn local_rfc3339_text(secs: i64, nanos: u32, offset: i32) -> Seq<char>;

/// Calls `chrono::DateTime::<chrono::Local>::to_rfc3339` on the instant `t`
/// and returns the text with the UTC offset (in seconds,
/// `FixedOffset::local_minus_utc`) at which the instant was shown. Which
/// offset applies depends on the machine's time zone; the text depends on
/// the instant and that offset alone, and chrono keeps offsets under a day.
/// There is a text exactly when `DateTime::<Utc>::from_timestamp` accepts
/// the instant, as for `utc_rfc3339`. chrono writes the offset rounded to
/// whole minutes: when the offset is a whole number of minutes and the
/// instant lies in the years 1 to 9999 with a valid nanosecond, the text
/// has a four-digit year and reads back as the same instant with
/// `DateTime::parse_from_rfc3339`; of other offsets nothing is said.
#[verifier::external_body]
pub fn local_rfc3339(t: Instant) -> (s: Option<(String, i32)>)
    ensures
        s is Some <==> utc_rfc3339_text(t.secs, t.nanos) is Some,
        match s {
            Some((x, off)) => {
                &&& -86400 < off < 86400
                &&& x@ == local_rfc3339_text(t.secs, t.nanos, off)
                &&& (ordinary_instant(t.secs, t.nanos) && off % 60 == 0) ==> rfc3339_instant(x@)
                    == Some((t.secs, t.nanos))
            },
            None => true,
        },
{
    let d = chrono::DateTime::<chrono::Utc>::from_timestamp(t.secs, t.nanos)?;
    let l = d.with_timezone(&chrono::Local);
    Some((l.to_rfc3339(), l.offset().local_minus_utc()))
}

/// The text `%Y-%m-%d` of the date that is `day` days from the Common Era.
pub uninterp spec fn ymd_text(day: i32) -> Option<Seq<char>>;

/// The days from the Common Era of the years 1 to 9999, which `%Y` writes
/// with four digits.
pub open spec fn ordinary_day(day: i32) -> bool {
    1 <= day <= 3652059
}

/// Calls `chrono::NaiveDate::from_num_days_from_ce_opt` and formats the date
/// as `%Y-%m-%d`. The text depends on the day alone. A day of the years 1 to
/// 9999 has a text, and `NaiveDate::parse_from_str` with the same pattern
/// reads it back as that day.
#[verifier::external_body]
pub fn format_ymd(day: i32) -> (s: Option<String>)
    ensures
        match s {
            Some(x) => ymd_text(day) == Some(x@),
            None => ymd_text(day) == None::<Seq<char>>,
        },
        match s {
            Some(x) => ordinary_day(day) ==> ymd_day(x@) == Some(day),
            None => !ordinary_day(day),
        },
{
    match chrono::NaiveDate::from_num_days_from_ce_opt(day) {
        Some(d) => Some(d.format("%Y-%m-%d").to_string()),
        None => None,
    }
}

/// The day from the Common Era that `NaiveDate::parse_from_str(s, "%Y-%m-%d")`
/// reads.
pub uninterp spec fn ymd_day(s: Seq<char>) -> Option<i32>;

/// Calls `chrono::NaiveDate::parse_from_str` with the format `%Y-%m-%d`. The
/// day depends on the text alone.
#[verifier::external_body]
pub fn parse_ymd(s: &str) -> (d: Option<i32>)
    ensures
        d == ymd_day(s@),
{
    match chrono::NaiveDate::parse_from_str(s, "%Y-%m-%d") {
        Ok(x) => Some(x.num_days_from_ce()),
        Err(_) => None,
    }
}

/// How a local wall-clock time maps to instants.
#[derive(Debug, Clone, Copy)]
pub enum LocalResolution {
    /// The time does not exist locally (a gap), or could not be resolved.
    Missing,
    /// Exactly one instant shows this time.
    Single(Instant),
    /// Two instants show this time (a fold): the earliest and the latest.
    Ambiguous(Instant, Instant),
}

/// The wall-clock time `hour:minute` of `day` (days from the Common Era)
/// read as if it were UTC, in seconds from the Unix epoch (day 719163 is
/// 1970-01-01).
pub open spec fn wall_secs(day: i32, hour: u32, minute: u32) -> int {
    (day - 719163) * 86400 + hour * 3600 + minute * 60
}

/// `i` is an instant that can show the wall-clock time `hour:minute` of
/// `day`: a whole second less than a day away from it read as UTC.
pub open spec fn near_wall(i: Instant, day: i32, hour: u32, minute: u32) -> bool {
    wall_secs(day, hour, minute) - 86400 < i.secs < wall_secs(day, hour, minute) + 86400 && i.nanos
        == 0
}

/// Every instant of the resolution `r` can show `hour:minute` of `day`.
pub open spec fn resolves_near(r: LocalResolution, day: i32, hour: u32, minute: u32) -> bool {
    match r {
        LocalResolution::Missing => true,
        LocalResolution::Single(i) => near_wall(i, day, hour, minute),
        LocalResolution::Ambiguous(a, b) => near_wall(a, day, hour, minute) && near_wall(
            b,
            day,
            hour,
            minute,
        ),
    }
}

/// Calls `chrono::TimeZone::from_local_datetime` of `chrono::Local` for the
/// wall-clock time `hour:minute:00` of the date `day` days from the Common
/// Era. Which instants answer depends on the machine's time zone; each is
/// the wall-clock time minus an offset of less than a day (chrono keeps
/// offsets under a day) and so falls on a whole second.
#[verifier::external_body]
pub fn resolve_local(day: i32, hour: u32, minute: u32) -> (r: LocalResolution)
    ensures
        resolves_near(r, day, hour, minute),
{
    let n = chrono::NaiveDate::from_num_days_from_ce_opt(day).and_then(|d| d.and_hms_opt(hour, minute, 0));
    let at = |a: chrono::DateTime<chrono::Local>| Instant { secs: a.timestamp(), nanos: a.timestamp_subsec_nanos() };
    match n.map(|n| chrono::Local.from_local_datetime(&n)) {
        Some(chrono::LocalResult::Single(a)) => LocalResolution::Single(at(a)),
        Some(chrono::LocalResult::Ambiguous(a, b)) => LocalResolution::Ambiguous(at(a), at(b)),
        _ => LocalResolution::Missing,
    }
}

} // verus!
