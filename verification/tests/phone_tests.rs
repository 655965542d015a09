use yandere_companion::clock::{parse_rfc3339, utc_now};
use yandere_companion::db::{nonneg_u32, nonneg_u64, summarize_phone_reports};
use yandere_companion::models::PhoneActivityEvent;
use yandere_companion::phone::{
    authorized, endpoint_url, is_tailscale_ipv4, merge_status, normalize_event, phone_gate, phone_gate_before_sleep,
    receiver_status, receiver_step, ReceiverOutcome, truncate, validate_event, with_latest, PhoneGate,
};

fn event(id: &str, name: &str, app: Option<&str>) -> PhoneActivityEvent {
    PhoneActivityEvent {
        device_id: id.into(),
        device_name: name.into(),
        observed_at: None,
        interactive: true,
        unlocked: true,
        foreground_app: app.map(|a| a.to_string()),
        foreground_package: None,
        session_seconds: Some(30),
        last_interaction_seconds_ago: None,
        clicks_1m: Some(4),
        scrolls_1m: None,
        app_switches_5m: None,
        pickups_20m: Some(2),
        phone_minutes_20m_bits: Some(1.5f32.to_bits()),
        longest_session_seconds_20m: None,
    }
}

#[test]
fn only_the_configured_bearer_token_is_accepted() {
    assert!(authorized(Some("Bearer yc-123"), " yc-123 "));
    assert!(!authorized(Some("Bearer yc-124"), "yc-123"));
    assert!(!authorized(Some("bearer yc-123"), "yc-123"));
    assert!(!authorized(None, "yc-123"));
    assert!(!authorized(Some("Bearer "), "  "));
}

#[test]
fn reports_are_gated_in_order() {
    assert_eq!(phone_gate(false, Some("Bearer t"), "t", false), PhoneGate::Disabled);
    assert_eq!(phone_gate(true, Some("Bearer x"), "t", false), PhoneGate::Unauthorized);
    assert_eq!(phone_gate(true, Some("Bearer t"), "t", true), PhoneGate::Sleeping);
    assert_eq!(phone_gate(true, Some("Bearer t"), "t", false), PhoneGate::Open);
    assert_eq!(phone_gate_before_sleep(false, Some("Bearer t"), "t"), Some(PhoneGate::Disabled));
    assert_eq!(phone_gate_before_sleep(true, None, "t"), Some(PhoneGate::Unauthorized));
    assert_eq!(phone_gate_before_sleep(true, Some("Bearer  "), "  "), Some(PhoneGate::Unauthorized));
    assert_eq!(phone_gate_before_sleep(true, Some("Bearer t"), "t"), None);
}

#[test]
fn reports_are_cleaned_and_checked() {
    let mut e = event("  pixel-8  ", &"n".repeat(200), Some("   "));
    e.foreground_package = Some(format!(" {} ", "p".repeat(300)));
    e.observed_at = Some(" 2024-01-01T00:00:00Z ".into());
    normalize_event(&mut e);
    assert_eq!(e.device_id, "pixel-8");
    assert_eq!(e.device_name.chars().count(), 128);
    assert_eq!(e.foreground_app, None);
    assert_eq!(e.foreground_package.as_ref().unwrap().len(), 220);
    assert_eq!(e.observed_at.as_deref(), Some("2024-01-01T00:00:00Z"));
    assert_eq!(e.clicks_1m, Some(4));
    assert!(validate_event(&e).is_ok());
    let mut e = event("   ", "name", None);
    normalize_event(&mut e);
    assert_eq!(validate_event(&e).unwrap_err(), "device_id is required");
    let e = event("id", "", None);
    assert_eq!(validate_event(&e).unwrap_err(), "device_name is required");
    assert_eq!(truncate("スマホ", 2), "スマ");
}

#[test]
fn tailscale_range_and_endpoint() {
    assert!(is_tailscale_ipv4([100, 64, 0, 1]));
    assert!(is_tailscale_ipv4([100, 127, 255, 255]));
    assert!(!is_tailscale_ipv4([100, 128, 0, 1]));
    assert!(!is_tailscale_ipv4([192, 168, 1, 2]));
    assert_eq!(endpoint_url("100.64.0.1", 38465), "http://100.64.0.1:38465/v1/phone/activity");
}

#[test]
fn receiver_status_keeps_the_last_device_state() {
    let current = with_latest(
        receiver_status(true, true, None, 1, "e".into(), "d".into()),
        Some(("2024-01-01T00:00:00+00:00".into(), event("id", "Pixel", None))),
    );
    assert_eq!(current.last_seen_at.as_deref(), Some("2024-01-01T00:00:00+00:00"));
    let next = receiver_status(true, false, Some("100.64.0.1".into()), 2, "e2".into(), "stopped".into());
    let merged = merge_status(next, current);
    assert!(!merged.running);
    assert_eq!(merged.detail, "stopped");
    assert_eq!(merged.last_seen_at.as_deref(), Some("2024-01-01T00:00:00+00:00"));
    assert_eq!(merged.latest_activity.unwrap().device_name, "Pixel");
}

#[test]
fn stored_counts_are_read_back_non_negative() {
    assert_eq!(nonneg_u64(-5), 0);
    assert_eq!(nonneg_u64(42), 42);
    assert_eq!(nonneg_u32(-1), 0);
    assert_eq!(nonneg_u32(7), 7);
    assert_eq!(nonneg_u32(1 << 32), 0);
}

#[test]
fn phone_reports_are_summarised() {
    assert!(summarize_phone_reports(vec![], utc_now().unwrap()).is_none());
    let now = parse_rfc3339("2024-01-01T00:03:00+00:00").unwrap();
    let rows = vec![
        ("2024-01-01T00:00:00+00:00".to_string(), event("id", "Pixel", Some("YouTube"))),
        ("2024-01-01T00:00:30+00:00".to_string(), event("id", "Pixel", Some("  "))),
        ("2024-01-01T00:01:00+00:00".to_string(), event("id", "Pixel", Some("Chrome"))),
        ("2024-01-01T00:02:00+00:00".to_string(), event("id", "Pixel 8", Some("YouTube"))),
    ];
    let s = summarize_phone_reports(rows, now).unwrap();
    assert_eq!(s.samples_in_window, 4);
    assert_eq!(s.last_seen_at, "2024-01-01T00:02:00+00:00");
    assert!(s.connected_recently);
    assert_eq!(s.device_name, "Pixel 8");
    assert_eq!(s.observed_apps, vec!["Chrome".to_string(), "YouTube".to_string()]);
    assert_eq!(s.phone_minutes_20m_bits.map(f32::from_bits), Some(1.5));
    let later = parse_rfc3339("2024-01-01T00:04:01+00:00").unwrap();
    let rows = vec![("2024-01-01T00:02:00+00:00".to_string(), event("id", "P", None))];
    assert!(!summarize_phone_reports(rows, later).unwrap().connected_recently);
    let many: Vec<(String, PhoneActivityEvent)> = (0..15)
        .map(|i| ("2024-01-01T00:00:00+00:00".to_string(), event("id", "P", Some(&format!("app{:02}", 14 - i)))))
        .collect();
    let s = summarize_phone_reports(many, now).unwrap();
    assert_eq!(s.observed_apps.len(), 12);
    assert_eq!(s.observed_apps[0], "app00");
    assert_eq!(s.observed_apps[11], "app11");
}

#[test]
fn each_receiver_round_shows_its_status_and_waits() {
    let (s, wait) = receiver_step(ReceiverOutcome::Disabled, 38465);
    assert!(!s.enabled && !s.running && s.port == 38465 && wait == 15);
    assert_eq!(s.detail, "Android連携は無効です。");
    let (s, wait) = receiver_step(ReceiverOutcome::ConfigUnreadable("bad toml".into()), 38465);
    assert_eq!((s.port, wait), (0, 15));
    assert_eq!(s.detail, "設定の読み込みに失敗: bad toml");
    let (s, wait) = receiver_step(ReceiverOutcome::NoTailscale, 38465);
    assert!(s.enabled && !s.running && s.tailscale_ip.is_none() && wait == 15);
    let (s, wait) = receiver_step(ReceiverOutcome::BindFailed("100.64.0.1".into(), "in use".into()), 38465);
    assert_eq!(s.endpoint, "http://100.64.0.1:38465/v1/phone/activity");
    assert_eq!((s.detail.as_str(), wait), ("Android受信ポートを開けません: in use", 15));
    let (s, wait) = receiver_step(ReceiverOutcome::Listening("100.64.0.1".into()), 38465);
    assert!(s.running && wait == 0);
    assert_eq!(s.tailscale_ip.as_deref(), Some("100.64.0.1"));
    let (s, wait) = receiver_step(ReceiverOutcome::Stopped("100.64.0.1".into()), 38465);
    assert!(!s.running && wait == 2);
}
