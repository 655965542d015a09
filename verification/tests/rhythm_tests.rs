use yandere_companion::clock::{
    format_ymd, local_rfc3339, parse_rfc3339, parse_ymd, utc_now, Instant, LocalResolution,
};
use yandere_companion::rhythm::{
    build_plan, build_plan_from, ensure_plan, ensure_plan_at, plan_from_resolution, read_plan, status,
    status_at,
    PersistedRhythmPlan,
};

const DAY_2024_01_01: i32 = 738_886;

fn plan(date: &str, sleep: &str, wake: &str) -> PersistedRhythmPlan {
    PersistedRhythmPlan { sleep_date: date.into(), sleep_at: sleep.into(), wake_at: wake.into() }
}

fn instant(s: &str) -> Instant {
    parse_rfc3339(s).unwrap()
}

#[test]
fn day_numbers_round_trip() {
    assert_eq!(format_ymd(DAY_2024_01_01).unwrap(), "2024-01-01");
    assert_eq!(parse_ymd("2024-01-01"), Some(DAY_2024_01_01));
    assert_eq!(parse_ymd("2024-13-01"), None);
}

#[test]
fn plan_falls_asleep_after_23_and_sleeps_about_eight_hours() {
    let built = build_plan_from(DAY_2024_01_01, 5, 10).unwrap();
    assert_eq!(built.plan.sleep_date, "2024-01-01");
    assert_eq!(built.wake.secs - built.sleep.secs, (465 + 10) * 60);
    let (d, s, w) = read_plan(&built.plan).unwrap();
    assert_eq!(d, DAY_2024_01_01);
    assert_eq!((s.secs, w.secs), (built.sleep.secs, built.wake.secs));
    // Byte values wrap into the windows: 65 % 60 = 5 minutes, 40 % 31 = 9 minutes.
    let other = build_plan_from(DAY_2024_01_01, 65, 40).unwrap();
    assert_eq!(other.sleep.secs, built.sleep.secs);
    assert_eq!(other.wake.secs - other.sleep.secs, (465 + 9) * 60);
    for _ in 0..10 {
        let p = build_plan(DAY_2024_01_01).unwrap();
        let len = p.wake.secs - p.sleep.secs;
        assert!((465 * 60..=495 * 60).contains(&len));
    }
}

#[test]
fn sleeping_exactly_between_sleep_and_wake() {
    let p = plan("2024-01-01", "2024-01-01T23:05:00+00:00", "2024-01-02T07:00:00+00:00");
    assert!(!status_at(&p, instant("2024-01-01T23:04:59+00:00")).unwrap().sleeping);
    assert!(status_at(&p, instant("2024-01-01T23:05:00+00:00")).unwrap().sleeping);
    assert!(status_at(&p, instant("2024-01-02T06:59:59+00:00")).unwrap().sleeping);
    assert!(!status_at(&p, instant("2024-01-02T07:00:00+00:00")).unwrap().sleeping);
}

#[test]
fn status_shows_the_plan_in_local_time() {
    let p = plan("2024-01-01", "2024-01-01T23:05:00+00:00", "2024-01-02T07:00:00+00:00");
    let st = status_at(&p, instant("2024-01-01T12:00:00+00:00")).unwrap();
    let sleep = parse_rfc3339(&st.sleep_at_local).unwrap();
    let wake = parse_rfc3339(&st.wake_at_local).unwrap();
    assert_eq!(sleep.secs, instant("2024-01-01T23:05:00+00:00").secs);
    assert_eq!(wake.secs, instant("2024-01-02T07:00:00+00:00").secs);
    assert_eq!(st.sleep_at_display.len(), 5);
    assert_eq!(st.wake_at_display.len(), 5);
    assert_eq!(&st.sleep_at_display[2..3], ":");
    assert_ne!(st.sleep_at_display, st.wake_at_display);
}

#[test]
fn unreadable_plan_is_an_error() {
    let p = plan("yesterday", "x", "y");
    assert_eq!(status_at(&p, instant("2024-01-01T12:00:00+00:00")).unwrap_err(), "parse rhythm plan");
}

#[test]
fn todays_or_running_plan_is_kept() {
    let p = plan("2024-01-01", "2024-01-01T23:05:00+00:00", "2024-01-02T07:00:00+00:00");
    // Same date.
    let (kept, changed) = ensure_plan_at(Some(p.clone()), instant("2024-01-01T12:00:00+00:00"), DAY_2024_01_01, 12).unwrap();
    assert!(!changed);
    assert_eq!(kept.sleep_at, p.sleep_at);
    // After midnight, still asleep.
    let (kept, changed) = ensure_plan_at(Some(p.clone()), instant("2024-01-02T03:00:00+00:00"), DAY_2024_01_01 + 1, 3).unwrap();
    assert!(!changed);
    assert_eq!(kept.wake_at, p.wake_at);
}

#[test]
fn stale_or_missing_plan_is_replaced() {
    let old = plan("2023-12-30", "2023-12-30T23:05:00+00:00", "2023-12-31T07:00:00+00:00");
    let (fresh, changed) = ensure_plan_at(Some(old), instant("2024-01-01T12:00:00+00:00"), DAY_2024_01_01, 12).unwrap();
    assert!(changed);
    assert_eq!(fresh.sleep_date, "2024-01-01");
    let (fresh, changed) = ensure_plan_at(None, instant("2024-01-01T12:00:00+00:00"), DAY_2024_01_01, 12).unwrap();
    assert!(changed);
    assert_eq!(fresh.sleep_date, "2024-01-01");
}

#[test]
fn early_morning_start_reconstructs_last_night_or_rolls_forward() {
    // At 09:00 no previous night is considered.
    let (p, _) = ensure_plan_at(None, instant("2024-01-02T09:00:00+00:00"), DAY_2024_01_01 + 1, 9).unwrap();
    assert_eq!(p.sleep_date, "2024-01-02");
    // At 03:00 on a machine whose clock is also at 03:00, last night's plan is still running.
    let now = instant("2024-01-02T03:00:00+00:00");
    let (p, changed) = ensure_plan_at(None, now, DAY_2024_01_01 + 1, 3).unwrap();
    assert!(changed);
    assert!(p.sleep_date == "2024-01-01" || p.sleep_date == "2024-01-02");
}

#[test]
fn live_status_is_consistent() {
    let (st, p, changed) = status(None).unwrap();
    assert!(changed);
    let (st2, p2, changed2) = status(Some(p.clone())).unwrap();
    assert!(!changed2);
    assert_eq!(p2.sleep_at, p.sleep_at);
    assert_eq!(st.sleep_at_display.len(), 5);
    let _ = st2.sleeping;
    let (q, c) = ensure_plan(Some(p.clone())).unwrap();
    assert!(!c);
    assert_eq!(q.wake_at, p.wake_at);
}

#[test]
fn a_resolved_sleep_time_gives_the_plan_or_the_first_failure() {
    let sleep = instant("2024-01-01T23:05:00+00:00");
    let built = plan_from_resolution(DAY_2024_01_01, LocalResolution::Single(sleep), 10).unwrap();
    assert_eq!((built.sleep.secs, built.wake.secs), (sleep.secs, sleep.secs + 475 * 60));
    assert_eq!(built.plan.sleep_date, "2024-01-01");
    let later = instant("2024-01-02T00:05:00+00:00");
    let folded = plan_from_resolution(DAY_2024_01_01, LocalResolution::Ambiguous(sleep, later), 0).unwrap();
    assert_eq!(folded.sleep.secs, sleep.secs);
    assert_eq!(
        plan_from_resolution(DAY_2024_01_01, LocalResolution::Missing, 0).unwrap_err(),
        "resolve local sleep time"
    );
    let last = Instant { secs: i64::MAX - 60, nanos: 0 };
    assert_eq!(
        plan_from_resolution(DAY_2024_01_01, LocalResolution::Single(last), 0).unwrap_err(),
        "compute wake time"
    );
    assert_eq!(
        plan_from_resolution(i32::MAX, LocalResolution::Single(sleep), 0).unwrap_err(),
        "build local sleep time"
    );
    let far = Instant { secs: i64::MAX / 2, nanos: 0 };
    assert_eq!(
        plan_from_resolution(DAY_2024_01_01, LocalResolution::Single(far), 0).unwrap_err(),
        "resolve local sleep time"
    );
}

#[test]
fn written_dates_and_instants_read_back() {
    for day in [1, 738_886, 3_652_059] {
        assert_eq!(parse_ymd(&format_ymd(day).unwrap()), Some(day));
    }
    let t = Instant { secs: 1_704_150_300, nanos: 250_000_000 };
    let (text, offset) = local_rfc3339(t).unwrap();
    assert!(-86_400 < offset && offset < 86_400);
    if offset % 60 == 0 {
        let back = parse_rfc3339(&text).unwrap();
        assert_eq!((back.secs, back.nanos), (t.secs, t.nanos));
    }
    let now = utc_now().unwrap();
    assert!(now.secs > 1_600_000_000 && now.nanos < 1_000_000_000);
}

#[test]
fn a_written_plan_is_kept_after_a_restart() {
    let now = instant("2024-01-01T12:00:00+00:00");
    let (p, changed) = ensure_plan_at(None, now, DAY_2024_01_01, 12).unwrap();
    assert!(changed);
    let (d, _s, w) = read_plan(&p).unwrap();
    assert_eq!(d, DAY_2024_01_01);
    let later = instant("2024-01-01T18:00:00+00:00");
    let (again, changed) = ensure_plan_at(Some(p.clone()), later, DAY_2024_01_01, 18).unwrap();
    assert!(!changed);
    assert_eq!((again.sleep_date, again.sleep_at, again.wake_at), (p.sleep_date.clone(), p.sleep_at.clone(), p.wake_at.clone()));
    let before_waking = Instant { secs: w.secs - 1, nanos: 0 };
    let (again, changed) = ensure_plan_at(Some(p.clone()), before_waking, DAY_2024_01_01 + 1, 6).unwrap();
    assert!(!changed);
    assert_eq!(again.sleep_at, p.sleep_at);
}
