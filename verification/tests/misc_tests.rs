use yandere_companion::clock::{minutes_between, parse_rfc3339, seconds_between, utc_rfc3339, Instant};
use yandere_companion::json::{parse_pointer_index, pointer_lookup, JsonValue};
use yandere_companion::logging::{error, format_log_line, info, log_file_path, timestamp_at, timestamp_now, warn};
use yandere_companion::prompts::{local_time_label_at, local_time_label_now};
use yandere_companion::models::{ObservationDecision, ScreenpipeHealth};

fn health(all: bool) -> ScreenpipeHealth {
    ScreenpipeHealth {
        reachable: true,
        screen_capture_ok: true,
        accessibility_ok: true,
        input_monitoring_ok: all,
        ui_recorder_running: true,
        events_inserted: 0,
        frame_status: String::new(),
        vision_reason: String::new(),
        ui_mode: String::new(),
        screenpipe_version: None,
        detail: String::new(),
    }
}

#[test]
fn observation_needs_every_permission() {
    assert!(health(true).observation_ready());
    assert!(!health(false).observation_ready());
}

#[test]
fn default_decision_is_silent() {
    let d = ObservationDecision::default();
    assert_eq!(d.activity, "unknown");
    assert!(!d.should_speak);
    assert_eq!(d.speak_reason, "insufficient_data");
    assert_eq!(f32::from_bits(d.focus_level_bits), 0.0);
}

#[test]
fn log_lines_stay_on_one_line() {
    assert_eq!(
        format_log_line("WARN", "first\nsecond", "2024-01-01 00:00:00.000 +00:00"),
        "[2024-01-01 00:00:00.000 +00:00] [WARN] first\\nsecond"
    );
    assert!(info("hello").ends_with("] [INFO] hello"));
    assert!(warn("a\nb").ends_with("] [WARN] a\\nb"));
    assert!(error("x").starts_with('['));
    assert_eq!(log_file_path("/data"), "/data/companion.log");
}

#[test]
fn time_arithmetic() {
    let a = parse_rfc3339("2024-01-01T00:00:00+00:00").unwrap();
    let b = parse_rfc3339("2024-01-01T01:00:00.5+01:00").unwrap();
    assert_eq!(b.secs - a.secs, 0);
    assert_eq!(b.nanos, 500_000_000);
    assert_eq!(minutes_between(a, Instant { secs: a.secs + 1199, nanos: 999_999_999 }), 19);
    assert_eq!(minutes_between(Instant { secs: a.secs + 1199, nanos: 0 }, a), -19);
    assert_eq!(seconds_between(a, Instant { secs: a.secs - 1, nanos: 500_000_000 }), 0);
    assert_eq!(utc_rfc3339(a).unwrap(), "2024-01-01T00:00:00+00:00");
    assert!(parse_rfc3339("yesterday").is_none());
}

#[test]
fn json_pointers() {
    let v = JsonValue::Object(vec![(
        "a".to_string(),
        JsonValue::Array(vec![JsonValue::Null, JsonValue::Text("x".to_string())]),
    )]);
    assert!(matches!(pointer_lookup(&v, &["a", "1"]), Some(JsonValue::Text(t)) if t == "x"));
    assert!(pointer_lookup(&v, &["a", "01"]).is_none());
    assert!(pointer_lookup(&v, &["a", "2"]).is_none());
    assert!(pointer_lookup(&v, &["b"]).is_none());
    assert_eq!(parse_pointer_index("0"), Some(0));
    assert_eq!(parse_pointer_index("+1"), None);
    assert_eq!(parse_pointer_index("99999999999999999999999"), None);
}

#[test]
fn local_time_texts_have_their_frames() {
    let t = timestamp_now();
    let parts: Vec<&str> = t.split(' ').collect();
    assert_eq!(parts.len(), 3);
    assert_eq!(parts[0].len(), 10);
    assert_eq!(parts[1].len(), 12);
    assert!(parts[2].starts_with('+') || parts[2].starts_with('-'));
    let label = local_time_label_now();
    assert!(label.contains(" (24時間表記 "));
    assert!(label.contains(", 12時間表記 "));
    assert!(label.ends_with(')'));
}

#[test]
fn stamps_of_a_given_instant() {
    let t = Instant { secs: 1_704_150_300, nanos: 123_000_000 };
    let stamp = timestamp_at(t);
    assert_eq!(stamp.len(), "2024-01-01 23:05:00.123 +00:00".len());
    assert!(stamp.contains(".123 "));
    let label = local_time_label_at(t);
    assert!(label.contains("(24時間表記 ") && label.ends_with(')'));
    assert!(timestamp_at(Instant { secs: i64::MAX, nanos: 0 }).is_empty());
}
