use yandere_companion::agent::{
    day_start_text, diary_day_start, diary_due, diary_may_be_written, diary_time_has_come, hour_ago_stamp,
    next_observation_delay, notification_allowed, observation_delay_secs,
    observation_window_minutes, persistent_snapshot, should_send_proactive, sleeping_diary_refusal,
    refuse_while_sleeping, sleeping_refusal, window_start, Scheduler,
};
use yandere_companion::clock::{Instant, LocalResolution};
use yandere_companion::config::AppConfig;
use yandere_companion::models::{ActivitySnapshot, AppActivity};

const JAN_1_2024: i64 = 1_704_067_200;

fn at(secs: i64) -> Instant {
    Instant { secs, nanos: 0 }
}

#[test]
fn delay_is_drawn_between_the_bounds() {
    assert_eq!(observation_delay_secs(300, 600, 0), 300);
    assert_eq!(observation_delay_secs(300, 600, 5), 305);
    assert_eq!(observation_delay_secs(300, 600, 301), 300);
    assert_eq!(observation_delay_secs(300, 600, 300), 600);
    // The minimum is never below one minute and the maximum never below it.
    assert_eq!(observation_delay_secs(10, 20, 12345), 60);
    assert_eq!(observation_delay_secs(120, 90, 7), 120);
    let cfg = AppConfig::default();
    for _ in 0..20 {
        let d = next_observation_delay(&cfg);
        assert!((300..=600).contains(&d));
    }
}

#[test]
fn window_covers_the_longest_interval() {
    let mut cfg = AppConfig::default();
    assert_eq!(observation_window_minutes(&cfg), 10);
    cfg.observation_window_minutes = 5;
    cfg.observation_interval_max_seconds = 601;
    assert_eq!(observation_window_minutes(&cfg), 11);
    cfg.observation_window_minutes = 0;
    cfg.observation_interval_max_seconds = 0;
    assert_eq!(observation_window_minutes(&cfg), 1);
    cfg.observation_window_minutes = 30;
    assert_eq!(observation_window_minutes(&cfg), 30);
}

#[test]
fn window_start_is_minutes_before_the_end() {
    let s = window_start(Instant { secs: JAN_1_2024, nanos: 7 }, 10).unwrap();
    assert_eq!((s.secs, s.nanos), (JAN_1_2024 - 600, 7));
    assert!(window_start(at(i64::MIN + 10), 1).is_none());
}

#[test]
fn stored_snapshot_drops_screen_text_only() {
    let snap = ActivitySnapshot {
        start_time: "s".into(),
        end_time: "e".into(),
        foreground_apps: vec![AppActivity { app: "Code".into(), seconds: 60 }],
        window_titles: vec!["main.rs".into()],
        keyboard_events: 3,
        mouse_events: 4,
        input_events_total: 9,
        observed_records: 12,
        idle_seconds_estimate: 0,
        transient_text_snippets: vec!["secret screen text".into()],
        phone: None,
    };
    let kept = persistent_snapshot(snap);
    assert!(kept.transient_text_snippets.is_empty());
    assert_eq!(kept.window_titles, vec!["main.rs".to_string()]);
    assert_eq!(kept.foreground_apps[0].app, "Code");
    assert_eq!((kept.keyboard_events, kept.mouse_events, kept.input_events_total), (3, 4, 9));
}

#[test]
fn notifications_respect_gap_and_hourly_limit() {
    let cfg = AppConfig::default();
    let now = at(JAN_1_2024 + 3600);
    // Last message 10 minutes ago: too soon.
    assert!(!notification_allowed(now, Some("2024-01-01T00:50:00+00:00"), 0, &cfg));
    // 19 minutes 59 seconds ago still counts as 19 whole minutes.
    assert!(!notification_allowed(now, Some("2024-01-01T00:40:01+00:00"), 0, &cfg));
    // 20 minutes ago is enough.
    assert!(notification_allowed(now, Some("2024-01-01T00:40:00+00:00"), 1, &cfg));
    // Two already sent in the last hour.
    assert!(!notification_allowed(now, Some("2024-01-01T00:10:00+00:00"), 2, &cfg));
    // No previous message, or an unreadable stamp: only the hourly limit applies.
    assert!(notification_allowed(now, None, 0, &cfg));
    assert!(notification_allowed(now, Some("not a time"), 1, &cfg));
    assert!(!notification_allowed(now, Some("not a time"), 2, &cfg));
}

#[test]
fn proactive_message_needs_wish_permission_and_key() {
    let mut cfg = AppConfig::default();
    assert!(!should_send_proactive(true, true, &cfg));
    cfg.gemini_api_key = " key ".into();
    assert!(should_send_proactive(true, true, &cfg));
    assert!(!should_send_proactive(false, true, &cfg));
    assert!(!should_send_proactive(true, false, &cfg));
}

#[test]
fn hour_ago_stamp_is_rfc3339() {
    let s = hour_ago_stamp(at(JAN_1_2024 + 3600)).unwrap();
    assert_eq!(s, "2024-01-01T00:00:00+00:00");
}

#[test]
fn diary_time_and_refusals() {
    let mut cfg = AppConfig::default();
    assert!(!diary_time_has_come(22, 29, &cfg));
    assert!(diary_time_has_come(22, 30, &cfg));
    assert!(diary_time_has_come(23, 0, &cfg));
    assert!(!diary_may_be_written(false, 23, 0, &cfg));
    cfg.gemini_api_key = "k".into();
    assert!(diary_may_be_written(false, 23, 0, &cfg));
    assert!(!diary_may_be_written(true, 23, 0, &cfg));
    assert_eq!(sleeping_refusal(&cfg), "美月は寝ています。");
    assert!(diary_due(false, 23, 0, &cfg, false));
    assert!(!diary_due(false, 23, 0, &cfg, true));
    assert!(!diary_due(true, 23, 0, &cfg, false));
    assert!(!diary_due(false, 22, 29, &cfg, false));
    assert_eq!(refuse_while_sleeping(true, &cfg).unwrap_err(), "美月は寝ています。");
    assert!(refuse_while_sleeping(false, &cfg).is_ok());
    assert_eq!(sleeping_diary_refusal(&cfg), "美月は寝ています。起きてから日記を生成してください。");
    assert!(diary_day_start(738_886).is_ok());
}

#[test]
fn diary_day_start_from_each_resolution() {
    let midnight = Instant { secs: JAN_1_2024 - 9 * 3600, nanos: 0 };
    assert_eq!(
        day_start_text(LocalResolution::Single(midnight)).unwrap(),
        "2023-12-31T15:00:00+00:00"
    );
    assert_eq!(day_start_text(LocalResolution::Missing).unwrap_err(), "local midnight");
    let later = Instant { secs: JAN_1_2024 + 3600, nanos: 0 };
    assert_eq!(
        day_start_text(LocalResolution::Ambiguous(midnight, later)).unwrap_err(),
        "local midnight"
    );
    let unwritable = Instant { secs: i64::MAX, nanos: 0 };
    assert_eq!(day_start_text(LocalResolution::Single(unwritable)).unwrap_err(), "local midnight");
}

#[test]
fn scheduler_sleeps_wakes_and_paces_the_diary() {
    let cfg = AppConfig::default();
    let mut s = Scheduler::new(0);
    assert!(s.observation_due(0));

    // Falling asleep: announced once, nothing attempted.
    let p = s.begin_tick(1_000, true, "2024-01-01", 23, 10, &cfg);
    assert!(p.emit_rhythm_changed && !p.attempt_diary);
    assert!(!s.observation_due(10_000_000));
    let p = s.begin_tick(16_000, true, "2024-01-01", 23, 10, &cfg);
    assert!(!p.emit_rhythm_changed && !p.attempt_diary);

    // Waking up: announced, and an observation is due at once.
    s.observation_finished(16_000, 600);
    let p = s.begin_tick(30_000_000, false, "2024-01-02", 7, 30, &cfg);
    assert!(p.emit_rhythm_changed && !p.attempt_diary);
    assert!(s.observation_due(30_000_000));
    s.observation_finished(30_000_000, 300);
    assert!(!s.observation_due(30_000_000 + 299_999));
    assert!(s.observation_due(30_000_000 + 300_000));

    // The diary is attempted at its time, then not again within five minutes.
    let p = s.begin_tick(40_000_000, false, "2024-01-02", 22, 30, &cfg);
    assert!(p.attempt_diary && !p.emit_rhythm_changed);
    let p = s.begin_tick(40_000_000 + 299_999, false, "2024-01-02", 22, 34, &cfg);
    assert!(!p.attempt_diary);
    let p = s.begin_tick(40_000_000 + 300_000, false, "2024-01-02", 22, 35, &cfg);
    assert!(p.attempt_diary);
    // A new date may try at once.
    let p = s.begin_tick(40_000_000 + 300_001, false, "2024-01-03", 22, 35, &cfg);
    assert!(p.attempt_diary);
    // Before the diary time nothing happens.
    let mut t = Scheduler::new(0);
    let p = t.begin_tick(5, false, "2024-01-03", 22, 29, &cfg);
    assert!(!p.attempt_diary);
}

#[test]
fn a_tick_observes_only_awake_and_when_due() {
    let cfg = AppConfig::default();
    let mut s = Scheduler::new(0);
    let p = s.begin_tick(0, false, "2024-01-02", 10, 0, &cfg);
    assert!(p.attempt_observation);
    s.observation_finished(0, 300);
    let p = s.begin_tick(299_999, false, "2024-01-02", 10, 4, &cfg);
    assert!(!p.attempt_observation);
    let p = s.begin_tick(300_000, true, "2024-01-02", 23, 30, &cfg);
    assert!(!p.attempt_observation);
    let p = s.begin_tick(300_001, false, "2024-01-03", 7, 30, &cfg);
    assert!(p.attempt_observation);
}
