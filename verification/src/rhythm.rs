//! The companion's sleep rhythm: every night she falls asleep at a random
//! minute between 23:00 and 23:59 and sleeps for 7h45m to 8h15m. The night's
//! plan is kept in a file so that a restart does not move it.

use vstd::prelude::*;
use crate::clock::{
    Instant, LocalResolution, before, local_rfc3339_text, ordinary_day, ordinary_instant, resolves_near,
    rfc3339_instant, utc_rfc3339_text, ymd_day, ymd_text,
};
use crate::models::RhythmStatus;

verus! {

/// The hour at which the companion starts falling asleep.
pub const SLEEP_START_HOUR: u32 = 23;

/// The number of minutes after 23:00 in which she falls asleep.
pub const SLEEP_WINDOW_MINUTES: u8 = 60;

/// The shortest night, in minutes (7h45m).
pub const SLEEP_DURATION_MIN_MINUTES: i64 = 465;

/// The number of possible night lengths, one per minute from 7h45m to 8h15m.
pub const SLEEP_DURATION_RANGE_MINUTES: u8 = 31;

/// The night's plan as it is stored: the local date on which she falls
/// asleep, and the instants of falling asleep and waking up.
#[derive(Debug, Clone)]
pub struct PersistedRhythmPlan {
    pub sleep_date: String,
    pub sleep_at: String,
    pub wake_at: String,
}

/// The minute after 23:00 chosen by the random byte `b`.
pub open spec fn sleep_minute(b: u8) -> nat {
    (b % 60) as nat
}

/// The length of the night in minutes chosen by the random byte `b`.
pub open spec fn sleep_minutes(b: u8) -> int {
    465 + (b % 31) as int
}

/// Law: the companion falls asleep between 23:00 and 23:59 and sleeps
/// between 7 hours 45 minutes and 8 hours 15 minutes, whatever the random
/// bytes.
pub proof fn law_sleep_schedule_bounds(b0: u8, b1: u8)
    ensures
        sleep_minute(b0) < 60,
        7 * 60 + 45 <= sleep_minutes(b1) <= 8 * 60 + 15,
{
}

/// A plan built for a night, together with the instants it holds.
#[derive(Debug, Clone)]
pub struct BuiltPlan {
    pub plan: PersistedRhythmPlan,
    pub sleep: Instant,
    pub wake: Instant,
    /// The UTC offset, in seconds, at which the sleep instant was written.
    pub sleep_offset: i32,
    /// The UTC offset, in seconds, at which the wake instant was written.
    pub wake_offset: i32,
}

/// The instant at which she falls asleep when the local time 23:mm resolves
/// to `res`: the only instant showing it, or the earlier of two.
pub open spec fn chosen_sleep(res: LocalResolution) -> Option<Instant> {
    match res {
        LocalResolution::Single(i) => Some(i),
        LocalResolution::Ambiguous(earliest, _) => Some(earliest),
        LocalResolution::Missing => None,
    }
}

/// Why the plan for `day` cannot be built when the local sleep time resolves
/// to `res` and the night's length is chosen by `b1`; nothing when it can.
/// The checks come in this order: the sleep time exists, the wake time is
/// representable, the date can be written, and both instants lie in
/// chrono's range.
pub open spec fn plan_failure(day: i32, res: LocalResolution, b1: u8) -> Option<Seq<char>> {
    match chosen_sleep(res) {
        None => Some("resolve local sleep time"@),
        Some(s) => if !(i64::MIN <= s.secs + 60 * sleep_minutes(b1) <= i64::MAX) {
            Some("compute wake time"@)
        } else if ymd_text(day) is None {
            Some("build local sleep time"@)
        } else if utc_rfc3339_text(s.secs, s.nanos) is None {
            Some("resolve local sleep time"@)
        } else if utc_rfc3339_text((s.secs + 60 * sleep_minutes(b1)) as i64, s.nanos) is None {
            Some("compute wake time"@)
        } else {
            None
        },
    }
}

/// `r` is the plan built for `day` when the local sleep time resolves to
/// `res` and the night's length is chosen by `b1`: on success she falls
/// asleep at the chosen instant and wakes that many minutes later, and the
/// plan's date is `day`; otherwise the error of the first failed check.
pub open spec fn built_from(r: Result<BuiltPlan, String>, day: i32, res: LocalResolution, b1: u8) -> bool {
    match r {
        Ok(p) => {
            &&& plan_failure(day, res, b1) is None
            &&& chosen_sleep(res) == Some(p.sleep)
            &&& p.wake.secs == p.sleep.secs + 60 * sleep_minutes(b1)
            &&& p.wake.nanos == p.sleep.nanos
            &&& ymd_text(day) == Some(p.plan.sleep_date@)
            &&& p.plan.sleep_at@ == local_rfc3339_text(p.sleep.secs, p.sleep.nanos, p.sleep_offset)
            &&& p.plan.wake_at@ == local_rfc3339_text(p.wake.secs, p.wake.nanos, p.wake_offset)
            &&& -86400 < p.sleep_offset < 86400 && -86400 < p.wake_offset < 86400
            &&& (ordinary_day(day) && ordinary_instant(p.sleep.secs, p.sleep.nanos)
                && ordinary_instant(p.wake.secs, p.wake.nanos) && p.sleep_offset % 60 == 0
                && p.wake_offset % 60 == 0) ==> plan_reading(p.plan) == Some(
                (day, (p.sleep.secs, p.sleep.nanos), (p.wake.secs, p.wake.nanos)),
            )
        },
        Err(e) => plan_failure(day, res, b1) == Some(e@),
    }
}

/// `r` is a plan built for the night of `day` from some minute `mm` of
/// 23:mm, some random byte choosing the night's length, and some answer of
/// the time zone for 23:mm.
pub open spec fn built_for(r: Result<BuiltPlan, String>, day: i32) -> bool {
    exists|m: u32, b1: u8, res: LocalResolution|
        #![trigger resolves_near(res, day, 23, m), built_from(r, day, res, b1)]
        m < 60 && resolves_near(res, day, 23, m) && built_from(r, day, res, b1)
}

/// Builds the plan for the night of `day` once its local sleep time 23:mm
/// has resolved to `res`, with the night's length chosen by the random byte
/// `b1`. The plan's instants are written in local time.
pub fn plan_from_resolution(day: i32, res: LocalResolution, b1: u8) -> (r: Result<BuiltPlan, String>)
    ensures
        built_from(r, day, res, b1),
{
    let duration: i64 = SLEEP_DURATION_MIN_MINUTES + (b1 % SLEEP_DURATION_RANGE_MINUTES) as i64;
    let sleep = match res {
        LocalResolution::Single(i) => i,
        LocalResolution::Ambiguous(earliest, _) => earliest,
        LocalResolution::Missing => {
            return Err("resolve local sleep time".to_owned());
        },
    };
    let wake = match crate::clock::shifted(sleep, duration * 60) {
        Some(w) => w,
        None => {
            return Err("compute wake time".to_owned());
        },
    };
    let sleep_date = match crate::clock::format_ymd(day) {
        Some(d) => d,
        None => {
            return Err("build local sleep time".to_owned());
        },
    };
    let (sleep_at, sleep_offset) = match crate::clock::local_rfc3339(sleep) {
        Some(s) => s,
        None => {
            return Err("resolve local sleep time".to_owned());
        },
    };
    let (wake_at, wake_offset) = match crate::clock::local_rfc3339(wake) {
        Some(s) => s,
        None => {
            return Err("compute wake time".to_owned());
        },
    };
    Ok(
        BuiltPlan {
            plan: PersistedRhythmPlan { sleep_date, sleep_at, wake_at },
            sleep,
            wake,
            sleep_offset,
            wake_offset,
        },
    )
}

/// Builds the plan for the night of `day` (days from the Common Era) from
/// the random bytes `b0` and `b1`: she falls asleep at `23:mm` local time
/// with `mm` chosen by `b0` (the earlier instant where the clock shows that
/// time twice), and wakes after the number of minutes chosen by `b1`. How
/// the local time resolves depends on the machine's time zone; whatever it
/// resolves to, the result is the plan built from that resolution.
pub fn build_plan_from(day: i32, b0: u8, b1: u8) -> (r: Result<BuiltPlan, String>)
    ensures
        match r {
            Ok(p) => {
                &&& p.wake.secs == p.sleep.secs + 60 * sleep_minutes(b1)
                &&& p.wake.nanos == p.sleep.nanos
                &&& ymd_text(day) == Some(p.plan.sleep_date@)
            },
            Err(_) => true,
        },
        exists|res: LocalResolution| #[trigger] built_from(r, day, res, b1),
        exists|res: LocalResolution|
            resolves_near(res, day, 23, (b0 % 60) as u32) && #[trigger] built_from(r, day, res, b1),
{
    let minute = (b0 % SLEEP_WINDOW_MINUTES) as u32;
    let res = crate::clock::resolve_local(day, SLEEP_START_HOUR, minute);
    let r = plan_from_resolution(day, res, b1);
    assert(built_from(r, day, res, b1));
    r
}

/// Builds the plan for the night of `day` from two fresh random bytes.
pub fn build_plan(day: i32) -> (r: Result<BuiltPlan, String>)
    ensures
        match r {
            Ok(p) => {
                &&& 465 * 60 <= p.wake.secs - p.sleep.secs <= 495 * 60
                &&& ymd_text(day) == Some(p.plan.sleep_date@)
            },
            Err(_) => true,
        },
        exists|b1: u8, res: LocalResolution| #[trigger] built_from(r, day, res, b1),
        built_for(r, day),
{
    let bytes = crate::ids::random_uuid_bytes();
    let r = build_plan_from(day, bytes[0], bytes[1]);
    let ghost res = choose|res: LocalResolution|
        resolves_near(res, day, 23, (bytes@[0] % 60) as u32) && #[trigger] built_from(
            r,
            day,
            res,
            bytes@[1],
        );
    assert(built_from(r, day, res, bytes@[1]));
    assert(resolves_near(res, day, 23, (bytes@[0] % 60) as u32));
    assert(built_for(r, day));
    r
}

/// The plan's date and instants, when all three texts can be read.
pub open spec fn plan_reading(p: PersistedRhythmPlan) -> Option<(i32, (i64, u32), (i64, u32))> {
    match (ymd_day(p.sleep_date@), rfc3339_instant(p.sleep_at@), rfc3339_instant(p.wake_at@)) {
        (Some(d), Some(s), Some(w)) => Some((d, s, w)),
        _ => None,
    }
}

/// The instant of a pair of seconds and nanoseconds.
pub open spec fn instant_of(t: (i64, u32)) -> Instant {
    Instant { secs: t.0, nanos: t.1 }
}

/// The plan's date and instants.
pub fn read_plan(p: &PersistedRhythmPlan) -> (r: Option<(i32, Instant, Instant)>)
    ensures
        match r {
            Some((d, s, w)) => plan_reading(*p) == Some((d, (s.secs, s.nanos), (w.secs, w.nanos))),
            None => plan_reading(*p) is None,
        },
{
    let d = crate::clock::parse_ymd(p.sleep_date.as_str());
    let s = crate::clock::parse_rfc3339(p.sleep_at.as_str());
    let w = crate::clock::parse_rfc3339(p.wake_at.as_str());
    match (d, s, w) {
        (Some(d), Some(s), Some(w)) => Some((d, s, w)),
        _ => None,
    }
}

/// A stored plan is kept when it can be read and is either tonight's or
/// still running (its wake time is ahead), so that a restart after midnight
/// keeps last night's sleep.
pub open spec fn keeps_plan(stored: Option<PersistedRhythmPlan>, today: i32, now: Instant) -> bool {
    match stored {
        Some(p) => match plan_reading(p) {
            Some((d, _s, w)) => d == today || before(now, instant_of(w)),
            None => false,
        },
        None => false,
    }
}

/// The night for which a new plan is first built: last night before 08:00,
/// tonight otherwise.
pub open spec fn first_plan_day(today: i32, hour: u32) -> int {
    if hour < 8 {
        today - 1
    } else {
        today as int
    }
}

/// `p` is the plan of a night built for `day`.
pub open spec fn plan_of_night(p: PersistedRhythmPlan, day: i32) -> bool {
    exists|b: BuiltPlan| b.plan == p && #[trigger] built_for(Ok(b), day)
}

/// A plan built for the night of `day` wakes no later than `now`.
pub open spec fn night_over(day: i32, now: Instant) -> bool {
    exists|b: BuiltPlan| #[trigger] built_for(Ok(b), day) && !before(now, b.wake)
}

/// A plan built for the night of `day` wakes after `now`, and it is `p`.
pub open spec fn night_running(p: PersistedRhythmPlan, day: i32, now: Instant) -> bool {
    exists|b: BuiltPlan| b.plan == p && #[trigger] built_for(Ok(b), day) && before(now, b.wake)
}

/// `r` is the plan in force at `now`, local date `today` and local hour
/// `hour`, given the stored plan: a kept plan unchanged and not to be stored
/// again; otherwise a new plan, to be stored: tonight's from 08:00 on;
/// before 08:00 last night's, unless the plan built for last night has
/// already woken, in which case tonight's. Or the error with which building
/// one failed (the night before the first representable day cannot be
/// planned).
pub open spec fn plan_decision(
    stored: Option<PersistedRhythmPlan>,
    now: Instant,
    today: i32,
    hour: u32,
    r: Result<(PersistedRhythmPlan, bool), String>,
) -> bool {
    if keeps_plan(stored, today, now) {
        r matches Ok((p, changed)) && Some(p) == stored && !changed
    } else {
        match r {
            Ok((p, changed)) => changed && if hour >= 8 {
                plan_of_night(p, today)
            } else {
                today > i32::MIN && (night_running(p, (today - 1) as i32, now) || (night_over(
                    (today - 1) as i32,
                    now,
                ) && plan_of_night(p, today)))
            },
            Err(e) => (hour < 8 && today == i32::MIN && e@ == "build local sleep time"@) || (hour < 8
                && today > i32::MIN && built_for(Err(e), (today - 1) as i32)) || built_for(
                Err(e),
                today,
            ),
        }
    }
}

/// Decides the plan in force at `now`, local date `today` and local hour
/// `hour`, given the stored plan. Returns the plan and whether it must be
/// stored. A kept plan is returned unchanged and is not stored again.
pub fn ensure_plan_at(stored: Option<PersistedRhythmPlan>, now: Instant, today: i32, hour: u32) -> (r:
    Result<(PersistedRhythmPlan, bool), String>)
    ensures
        keeps_plan(stored, today, now) ==> (r matches Ok((p, changed)) && Some(p) == stored
            && !changed),
        plan_decision(stored, now, today, hour, r),
{
    if let Some(existing) = &stored {
        if let Some((d, _s, w)) = read_plan(existing) {
            if d == today || crate::clock::is_before(now, w) {
                return Ok((existing.clone_plan(), false));
            }
        }
    }
    assert(!keeps_plan(stored, today, now));
    let initial = if hour < 8 {
        match today.checked_sub(1) {
            Some(y) => y,
            None => {
                return Err("build local sleep time".to_owned());
            },
        }
    } else {
        today
    };
    let first = build_plan(initial);
    let built = match first {
        Ok(b) => b,
        Err(e) => {
            assert(built_for(Err(e), initial));
            let r: Result<(PersistedRhythmPlan, bool), String> = Err(e);
            assert(plan_decision(stored, now, today, hour, r));
            return r;
        },
    };
    assert(built_for(Ok(built), initial));
    if initial != today && !crate::clock::is_before(now, built.wake) {
        assert(night_over(initial, now));
        let second = build_plan(today);
        match second {
            Ok(b) => {
                assert(built_for(Ok(b), today));
                assert(plan_of_night(b.plan, today));
                Ok((b.plan, true))
            },
            Err(e) => {
                assert(built_for(Err(e), today));
                Err(e)
            },
        }
    } else {
        assert(plan_of_night(built.plan, initial));
        if initial != today {
            assert(night_running(built.plan, initial, now));
        }
        Ok((built.plan, true))
    }
}

/// Law: a stale plan is replaced. A stored plan that reads back, is dated
/// another day than today, and whose wake time has come is not kept: the
/// decision either fails to build a plan or returns a newly built one to be
/// stored, and from 08:00 on that plan is tonight's, dated today, with its
/// sleep at 23:mm of today's local time for some minute `mm`.
pub proof fn law_stale_plan_replaced(
    stored: PersistedRhythmPlan,
    now: Instant,
    today: i32,
    hour: u32,
    r: Result<(PersistedRhythmPlan, bool), String>,
)
    requires
        plan_decision(Some(stored), now, today, hour, r),
        plan_reading(stored) matches Some((d, _s, w)) && d != today && !before(now, instant_of(w)),
    ensures
        r matches Ok((p, changed)) ==> changed,
        r matches Ok((p, _changed)) ==> (hour >= 8 ==> ymd_text(today) == Some(p.sleep_date@)
            && plan_of_night(p, today) && exists|b: BuiltPlan, m: u32|
            #![trigger built_for(Ok(b), today), crate::clock::near_wall(b.sleep, today, 23, m)]
            b.plan == p && built_for(Ok(b), today) && m < 60 && crate::clock::near_wall(
                b.sleep,
                today,
                23,
                m,
            )),
{
    assert(!keeps_plan(Some(stored), today, now));
    if let Ok((p, _changed)) = r {
        if hour >= 8 {
            let b = choose|b: BuiltPlan| b.plan == p && #[trigger] built_for(Ok(b), today);
            let (m, b1, res) = choose|m: u32, b1: u8, res: LocalResolution|
                #![trigger resolves_near(res, today, 23, m), built_from(Ok(b), today, res, b1)]
                m < 60 && resolves_near(res, today, 23, m) && built_from(Ok(b), today, res, b1);
            assert(crate::clock::near_wall(b.sleep, today, 23, m));
            assert(built_for(Ok(b), today));
        }
    }
}

/// The plan `p` was built for the night of `day` and written at a UTC offset
/// that is not a whole number of minutes.
pub open spec fn written_at_odd_offset(p: PersistedRhythmPlan, day: i32) -> bool {
    exists|b: BuiltPlan|
        #[trigger] built_for(Ok(b), day) && b.plan == p && (b.sleep_offset % 60 != 0
            || b.wake_offset % 60 != 0)
}

/// Law: a restart keeps tonight's sleep time. Any plan that the decision
/// returns and that reads back is returned again, unchanged and not written
/// again, by every later decision made on its night's date or before its
/// wake time. A kept plan always reads back; a newly written plan for a
/// local date well inside the years 1 to 9999 reads back as last night or
/// tonight, unless the time zone showed its instants at an offset that is
/// not a whole number of minutes.
pub proof fn law_restart_keeps_plan(
    stored: Option<PersistedRhythmPlan>,
    now: Instant,
    today: i32,
    hour: u32,
    p: PersistedRhythmPlan,
    changed: bool,
    now2: Instant,
    today2: i32,
    hour2: u32,
    r2: Result<(PersistedRhythmPlan, bool), String>,
)
    requires
        plan_decision(stored, now, today, hour, Ok((p, changed))),
        plan_decision(Some(p), now2, today2, hour2, r2),
    ensures
        (plan_reading(p) matches Some((d, _s, w)) && (today2 == d || before(now2, instant_of(w))))
            ==> r2 == Ok::<(PersistedRhythmPlan, bool), String>((p, false)),
        !changed ==> plan_reading(p) is Some,
        changed && 4 <= today <= 3652056 ==> (plan_reading(p) matches Some((d, _s, _w)) && (d
            == today || d == today - 1)) || written_at_odd_offset(p, today) || written_at_odd_offset(
            p,
            (today - 1) as i32,
        ),
{
    if changed && 4 <= today <= 3652056 {
        let night = if hour >= 8 {
            today
        } else if night_running(p, (today - 1) as i32, now) {
            (today - 1) as i32
        } else {
            today
        };
        assert(plan_of_night(p, night));
        let b = choose|b: BuiltPlan| b.plan == p && #[trigger] built_for(Ok(b), night);
        let (m, b1, res) = choose|m: u32, b1: u8, res: LocalResolution|
            #![trigger resolves_near(res, night, 23, m), built_from(Ok(b), night, res, b1)]
            m < 60 && resolves_near(res, night, 23, m) && built_from(Ok(b), night, res, b1);
        assert(crate::clock::near_wall(b.sleep, night, 23, m));
        assert(ordinary_day(night));
        assert(ordinary_instant(b.sleep.secs, b.sleep.nanos));
        assert(ordinary_instant(b.wake.secs, b.wake.nanos));
        if b.sleep_offset % 60 == 0 && b.wake_offset % 60 == 0 {
            assert(plan_reading(p) == Some(
                (night, (b.sleep.secs, b.sleep.nanos), (b.wake.secs, b.wake.nanos)),
            ));
        } else {
            assert(written_at_odd_offset(p, night));
        }
    }
}

/// Whether the companion sleeps at `now` under a plan that falls asleep at
/// `sleep` and wakes at `wake`.
pub open spec fn asleep_at(now: Instant, sleep: Instant, wake: Instant) -> bool {
    !before(now, sleep) && before(now, wake)
}

/// `text` and `display` show the instant `t` in local time: its RFC 3339
/// text and its `%H:%M`, each at an offset of less than a day.
pub open spec fn shows_local(text: Seq<char>, display: Seq<char>, t: (i64, u32)) -> bool {
    &&& exists|off: i32|
        -86400 < off < 86400 && #[trigger] local_rfc3339_text(t.0, t.1, off) == text
    &&& exists|off: i32|
        -86400 < off < 86400 && #[trigger] crate::clock::local_text(t.0, t.1, off, "%H:%M"@)
            == display
}

/// `r` is the status at `now` under the plan `p`: an error when the plan
/// cannot be read, or when one of its instants lies outside chrono's range
/// and so cannot be shown in local time; otherwise a status that is asleep
/// exactly between the plan's instants.
pub open spec fn status_outcome(p: PersistedRhythmPlan, now: Instant, r: Result<RhythmStatus, String>) -> bool {
    match plan_reading(p) {
        None => r matches Err(e) && e@ == "parse rhythm plan"@,
        Some((_d, s, w)) => if utc_rfc3339_text(s.0, s.1) is Some && utc_rfc3339_text(w.0, w.1) is Some {
            r matches Ok(st) && st.sleeping == asleep_at(now, instant_of(s), instant_of(w))
                && shows_local(st.sleep_at_local@, st.sleep_at_display@, s)
                && shows_local(st.wake_at_local@, st.wake_at_display@, w)
        } else {
            r matches Err(e) && e@ == "format rhythm plan"@
        },
    }
}

/// `r` is the plan in force at the clock reading `now`, given the stored
/// plan: an error when the clock cannot be read, or when the instant read
/// lies outside the years 1 to 9999 and its local time cannot be read;
/// otherwise the plan decided at the local date and hour of that instant.
pub open spec fn plan_now(
    stored: Option<PersistedRhythmPlan>,
    now: Option<Instant>,
    r: Result<(PersistedRhythmPlan, bool), String>,
) -> bool {
    match now {
        None => r matches Err(e) && e@ == "read local time"@,
        Some(i) => (exists|today: i32, hour: u32|
            hour < 24 && #[trigger] plan_decision(stored, i, today, hour, r)) || (!ordinary_instant(
            i.secs,
            i.nanos,
        ) && (r matches Err(e) && e@ == "read local time"@)),
    }
}

/// `r` is the status read at the clock reading `now2` under the plan decided
/// at the clock reading `now1`, together with that plan and whether it must
/// be stored; or the error of either step.
pub open spec fn status_now(
    stored: Option<PersistedRhythmPlan>,
    now1: Option<Instant>,
    now2: Option<Instant>,
    r: Result<(RhythmStatus, PersistedRhythmPlan, bool), String>,
) -> bool {
    match r {
        Ok((st, p, changed)) => plan_now(stored, now1, Ok((p, changed))) && (now2 matches Some(i)
            && status_outcome(p, i, Ok(st))),
        Err(e) => plan_now(stored, now1, Err(e)) || exists|p: PersistedRhythmPlan, changed: bool|
            #[trigger] plan_now(stored, now1, Ok((p, changed))) && match now2 {
                Some(i) => status_outcome(p, i, Err(e)),
                None => e@ == "read local time"@,
            },
    }
}

/// The rhythm status at `now` under the plan `p`.
pub fn status_at(p: &PersistedRhythmPlan, now: Instant) -> (r: Result<RhythmStatus, String>)
    ensures
        match r {
            Ok(st) => match plan_reading(*p) {
                Some((_d, s, w)) => st.sleeping == asleep_at(now, instant_of(s), instant_of(w)),
                None => false,
            },
            Err(e) => plan_reading(*p) is None ==> e@ == "parse rhythm plan"@,
        },
        status_outcome(*p, now, r),
{
    let (sleep, wake) = match read_plan(p) {
        Some((_d, s, w)) => (s, w),
        None => {
            return Err("parse rhythm plan".to_owned());
        },
    };
    let sleeping = !crate::clock::is_before(now, sleep) && crate::clock::is_before(now, wake);
    let sleep_at_local = crate::clock::local_rfc3339(sleep);
    let wake_at_local = crate::clock::local_rfc3339(wake);
    let sleep_at_display = crate::clock::local_format(sleep, "%H:%M");
    let wake_at_display = crate::clock::local_format(wake, "%H:%M");
    match (sleep_at_local, wake_at_local, sleep_at_display, wake_at_display) {
        (Some((a, o1)), Some((b, o2)), Some((c, o3)), Some((d, o4))) => {
            assert(local_rfc3339_text(sleep.secs, sleep.nanos, o1) == a@);
            assert(local_rfc3339_text(wake.secs, wake.nanos, o2) == b@);
            assert(crate::clock::local_text(sleep.secs, sleep.nanos, o3, "%H:%M"@) == c@);
            assert(crate::clock::local_text(wake.secs, wake.nanos, o4, "%H:%M"@) == d@);
            Ok(
            RhythmStatus {
                sleeping,
                sleep_at_local: a,
                wake_at_local: b,
                sleep_at_display: c,
                wake_at_display: d,
            },
            )
        },
        _ => Err("format rhythm plan".to_owned()),
    }
}

/// The plan in force now, given the stored plan: returns it with whether it
/// must be stored.
pub fn ensure_plan(stored: Option<PersistedRhythmPlan>) -> (r: Result<(PersistedRhythmPlan, bool), String>)
    ensures
        match r {
            Ok((p, changed)) => !changed ==> Some(p) == stored,
            Err(_) => true,
        },
        exists|now: Option<Instant>| #[trigger] plan_now(stored, now, r),
{
    let now = crate::clock::utc_now();
    let i = match now {
        Some(i) => i,
        None => {
            let r = Err("read local time".to_owned());
            assert(plan_now(stored, now, r));
            return r;
        },
    };
    let (today, hour) = match crate::clock::local_calendar(i) {
        Some((d, h, _m)) => (d, h),
        None => {
            let r = Err("read local time".to_owned());
            assert(plan_now(stored, now, r));
            return r;
        },
    };
    let r = ensure_plan_at(stored, i, today, hour);
    assert(plan_decision(stored, i, today, hour, r));
    assert(plan_now(stored, now, r));
    r
}

/// The rhythm status now, given the stored plan: returns the status, the plan
/// in force and whether that plan must be stored.
pub fn status(stored: Option<PersistedRhythmPlan>) -> (r: Result<(RhythmStatus, PersistedRhythmPlan, bool), String>)
    ensures
        match r {
            Ok((st, p, changed)) => {
                &&& !changed ==> Some(p) == stored
                &&& match plan_reading(p) {
                    Some((_d, s, w)) => exists|now: Instant|
                        st.sleeping == #[trigger] asleep_at(now, instant_of(s), instant_of(w)),
                    None => false,
                }
            },
            Err(_) => true,
        },
        exists|now1: Option<Instant>, now2: Option<Instant>| #[trigger] status_now(stored, now1, now2, r),
{
    let decided = ensure_plan(stored);
    let ghost now1 = choose|now: Option<Instant>| #[trigger] plan_now(stored, now, decided);
    let (plan, changed) = match decided {
        Ok(pc) => pc,
        Err(e) => {
            let r = Err(e);
            assert(status_now(stored, now1, now1, r));
            return r;
        },
    };
    let now = crate::clock::utc_now();
    let i = match now {
        Some(i) => i,
        None => {
            assert(plan_now(stored, now1, Ok((plan, changed))));
            let r = Err("read local time".to_owned());
            assert(status_now(stored, now1, now, r));
            return r;
        },
    };
    match status_at(&plan, i) {
        Ok(st) => {
            let r = Ok((st, plan, changed));
            assert(status_now(stored, now1, now, r));
            r
        },
        Err(e) => {
            let ghost e2 = e;
            assert(status_outcome(plan, i, Err(e2)));
            assert(plan_now(stored, now1, Ok((plan, changed))));
            let r = Err(e);
            assert(status_now(stored, now1, now, r));
            r
        },
    }
}

impl PersistedRhythmPlan {
    /// A copy of the plan.
    pub fn clone_plan(&self) -> (c: PersistedRhythmPlan)
        ensures
            c == *self,
    {
        PersistedRhythmPlan {
            sleep_date: self.sleep_date.clone(),
            sleep_at: self.sleep_at.clone(),
            wake_at: self.wake_at.clone(),
        }
    }
}

/// Law: the companion is asleep exactly from the instant she falls asleep
/// (included) until the instant she wakes (excluded); in particular never
/// before tonight's sleep time.
pub proof fn law_asleep_only_within_plan(now: Instant, sleep: Instant, wake: Instant)
    ensures
        asleep_at(now, sleep, wake) ==> !before(now, sleep) && before(now, wake),
        before(now, sleep) ==> !asleep_at(now, sleep, wake),
        !before(now, wake) ==> !asleep_at(now, sleep, wake),
{
}

/// The plan file inside the data directory `base`.
pub fn plan_path(base: &str) -> (p: String)
    ensures
        p@ == crate::config::joined_path(base@, "rhythm.json"@),
{
    crate::config::join_path(base, "rhythm.json")
}

} // verus!
