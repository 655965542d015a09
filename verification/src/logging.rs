//! Lines of the persistent application log. Writing them to the log file is
//! left to the caller.

use vstd::prelude::*;
use crate::text::replace;
use crate::clock::Instant;

verus! {

/// One log line: `[timestamp] [LEVEL] message`, with every line break of the
/// message written as the two characters `\n` so that a record stays on one
/// line.
pub open spec fn log_line(level: Seq<char>, message: Seq<char>, timestamp: Seq<char>) -> Seq<
    char,
> {
    "["@ + timestamp + "] ["@ + level + "] "@ + replace(message, "\n"@, "\\n"@)
}

/// The log line for `message` at `level`, stamped `timestamp`.
pub fn format_log_line(level: &str, message: &str, timestamp: &str) -> (line: String)
    ensures
        line@ == log_line(level@, message@, timestamp@),
{
    let clean = crate::text::replace_text(message, "\n", "\\n");
    let mut v: Vec<char> = Vec::new();
    crate::text::extend_str(&mut v, "[");
    crate::text::extend_str(&mut v, timestamp);
    crate::text::extend_str(&mut v, "] [");
    crate::text::extend_str(&mut v, level);
    crate::text::extend_str(&mut v, "] ");
    crate::text::extend_str(&mut v, clean.as_str());
    crate::text::string_of(&v)
}

/// The pattern of the log's time stamps: local date, time to the
/// millisecond and UTC offset.
pub open spec fn stamp_pattern() -> Seq<char> {
    "%Y-%m-%d %H:%M:%S%.3f %:z"@
}

/// `t` is the log time stamp of the instant `now`: its local date, time to
/// the millisecond and UTC offset, written with `stamp_pattern` at one
/// offset of less than a day; empty when the instant lies outside chrono's
/// range.
pub open spec fn log_stamp(now: Instant, t: Seq<char>) -> bool {
    if crate::clock::utc_rfc3339_text(now.secs, now.nanos) is Some {
        exists|off: i32|
            -86400 < off < 86400 && #[trigger] crate::clock::local_text(
                now.secs,
                now.nanos,
                off,
                stamp_pattern(),
            ) == t
    } else {
        t.len() == 0
    }
}

/// `t` is the time stamp for the clock reading `now`: that of the instant
/// read, or empty when the clock could not be read.
pub open spec fn stamp_of(now: Option<Instant>, t: Seq<char>) -> bool {
    match now {
        Some(i) => log_stamp(i, t),
        None => t.len() == 0,
    }
}

/// The log time stamp of the instant `now`.
pub fn timestamp_at(now: Instant) -> (t: String)
    ensures
        log_stamp(now, t@),
{
    match crate::clock::local_format(now, "%Y-%m-%d %H:%M:%S%.3f %:z") {
        Some((t, off)) => {
            assert(crate::clock::local_text(now.secs, now.nanos, off, stamp_pattern()) == t@);
            t
        },
        None => String::new(),
    }
}

/// The local time now in the log's format `%Y-%m-%d %H:%M:%S%.3f %:z`.
pub fn timestamp_now() -> (t: String)
    ensures
        exists|now: Option<Instant>| #[trigger] stamp_of(now, t@),
{
    let now = crate::clock::utc_now();
    let t = match now {
        Some(i) => timestamp_at(i),
        None => String::new(),
    };
    assert(stamp_of(now, t@));
    t
}

/// The `INFO` line for `message`, stamped with the local time now.
pub fn info(message: &str) -> (line: String)
    ensures
        exists|now: Option<Instant>, t: Seq<char>|
            #[trigger] stamp_of(now, t) && line@ == log_line("INFO"@, message@, t),
{
    let t = timestamp_now();
    format_log_line("INFO", message, t.as_str())
}

/// The `WARN` line for `message`, stamped with the local time now.
pub fn warn(message: &str) -> (line: String)
    ensures
        exists|now: Option<Instant>, t: Seq<char>|
            #[trigger] stamp_of(now, t) && line@ == log_line("WARN"@, message@, t),
{
    let t = timestamp_now();
    format_log_line("WARN", message, t.as_str())
}

/// The `ERROR` line for `message`, stamped with the local time now.
pub fn error(message: &str) -> (line: String)
    ensures
        exists|now: Option<Instant>, t: Seq<char>|
            #[trigger] stamp_of(now, t) && line@ == log_line("ERROR"@, message@, t),
{
    let t = timestamp_now();
    format_log_line("ERROR", message, t.as_str())
}

/// The log file inside the data directory `base`.
pub fn log_file_path(base: &str) -> (p: String)
    ensures
        p@ == crate::config::joined_path(base@, "companion.log"@),
{
    crate::config::join_path(base, "companion.log")
}

} // verus!
