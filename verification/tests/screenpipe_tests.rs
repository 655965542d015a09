use yandere_companion::clock::Instant;
use yandere_companion::json::{JsonNumber, JsonValue};
use yandere_companion::models::AppActivity;
use yandere_companion::screenpipe::{
    body_retry_delay, classify_input_metadata, count_inputs, endpoint, idle_seconds_estimate,
    is_screenpipe_command, local_port, local_screenpipe_url, non_local_start_refusal,
    recorder_launch_script, retry_delay_ms, search_route_reachable, should_retry, summarize_screen, top_apps,
    trim_to_chars, window_seconds, InputKind,
};

fn s(t: &str) -> JsonValue {
    JsonValue::Text(t.to_string())
}
fn obj(v: Vec<(&str, JsonValue)>) -> JsonValue {
    JsonValue::Object(v.into_iter().map(|(k, x)| (k.to_string(), x)).collect())
}
fn data(items: Vec<JsonValue>) -> JsonValue {
    obj(vec![("data", JsonValue::Array(items))])
}

#[test]
fn local_addresses() {
    assert!(local_screenpipe_url("http://127.0.0.1:3030"));
    assert!(local_screenpipe_url("  HTTP://LOCALHOST:3030/ "));
    assert!(!local_screenpipe_url("https://127.0.0.1:3030"));
    assert!(!local_screenpipe_url("http://localhost"));
    assert!(!local_screenpipe_url("http://192.168.0.2:3030"));
    assert_eq!(endpoint("http://127.0.0.1:3030//", "/health"), "http://127.0.0.1:3030/health");
    assert_eq!(endpoint("http://127.0.0.1:3030", "/search"), "http://127.0.0.1:3030/search");
}

#[test]
fn local_port_of_the_recorder() {
    assert_eq!(local_port("http://127.0.0.1:3030").unwrap(), 3030);
    assert_eq!(
        local_port("http://example.com:3030").unwrap_err(),
        "refusing to stop non-local screenpipe URL: http://example.com:3030"
    );
    assert_eq!(local_port("http://localhost:99999").unwrap_err(), "parse screenpipe URL http://localhost:99999");
    assert_eq!(
        non_local_start_refusal("http://x:1"),
        "screenpipe is not reachable at configured non-local URL: http://x:1"
    );
}

#[test]
fn recorder_commands() {
    assert!(is_screenpipe_command("/usr/local/bin/ScreenPipe record"));
    assert!(!is_screenpipe_command("/bin/zsh"));
    let script = recorder_launch_script();
    assert!(script.starts_with("if command -v screenpipe >/dev/null 2>&1; then exec screenpipe record --disable-audio"));
    assert!(script.contains("; else exec npx -y screenpipe@latest record --disable-audio"));
    assert!(script.ends_with("--idle-capture-interval-ms 30000; fi"));
}

#[test]
fn busy_searches_are_retried_with_bounded_pauses() {
    assert!(should_retry(503, 0));
    assert!(should_retry(429, 2));
    assert!(should_retry(503, 3));
    assert!(!should_retry(503, 4));
    assert!(!should_retry(500, 0));
    assert_eq!(retry_delay_ms(Some(1), None, 0), 1000);
    assert_eq!(retry_delay_ms(Some(10), Some(300), 0), 2500);
    assert_eq!(retry_delay_ms(Some(0), Some(300), 0), 200);
    assert_eq!(retry_delay_ms(None, Some(300), 1), 300);
    assert_eq!(retry_delay_ms(None, None, 0), 350);
    assert_eq!(retry_delay_ms(None, None, 1), 700);
    assert_eq!(retry_delay_ms(None, None, 2), 1400);
    assert_eq!(retry_delay_ms(None, None, 3), 2500);
    assert_eq!(retry_delay_ms(Some(u64::MAX), None, 2), 2500);
    let body = obj(vec![("retry_after_ms", JsonValue::Number(JsonNumber::PosInt(450)))]);
    assert_eq!(body_retry_delay(&body), Some(450));
    let body = obj(vec![("retry_after_ms", JsonValue::Number(JsonNumber::NegInt(-1)))]);
    assert_eq!(body_retry_delay(&body), None);
}

#[test]
fn input_events_are_classified_by_type_only() {
    assert_eq!(classify_input_metadata(&obj(vec![("event_type", s("KeyPress"))])), InputKind::Keyboard);
    assert_eq!(
        classify_input_metadata(&obj(vec![("content", obj(vec![("kind", s("scroll"))]))])),
        InputKind::Mouse
    );
    // An unhelpful first key does not hide a later one.
    assert_eq!(
        classify_input_metadata(&obj(vec![("event_type", s("other")), ("device", s("mouse"))])),
        InputKind::Mouse
    );
    assert_eq!(classify_input_metadata(&obj(vec![("text", s("keyboard"))])), InputKind::Other);
    let input = data(vec![
        obj(vec![("type", s("key"))]),
        obj(vec![("type", s("click"))]),
        obj(vec![("type", s("app_switch"))]),
    ]);
    let c = count_inputs(&input);
    assert_eq!((c.keyboard, c.mouse, c.total), (1, 1, 3));
    let c = count_inputs(&JsonValue::Null);
    assert_eq!((c.keyboard, c.mouse, c.total), (0, 0, 0));
}

#[test]
fn screen_records_are_summarised() {
    let long_text = "This   is a screen\ntext that is long enough";
    let all = data(vec![
        obj(vec![("content", obj(vec![("app_name", s("Code")), ("window_name", s("main.rs")), ("text", s(long_text))]))]),
        obj(vec![("content", obj(vec![("app_name", s("Safari")), ("window_name", s("docs")), ("text", s("short"))]))]),
        obj(vec![("content", obj(vec![("app_name", s("Code")), ("window_name", s("main.rs"))]))]),
        obj(vec![("content", obj(vec![("app_name", s("Slack")), ("focused", JsonValue::Bool(false))]))]),
        obj(vec![("app_name", s("")), ("window_name", s("lib.rs"))]),
    ]);
    let sum = summarize_screen(&all);
    assert_eq!(sum.records, 5);
    assert_eq!(sum.app_counts, vec![("Code".to_string(), 2), ("Safari".to_string(), 1)]);
    assert_eq!(sum.window_titles, vec!["main.rs".to_string(), "docs".to_string(), "lib.rs".to_string()]);
    assert_eq!(sum.snippets, vec!["This is a screen text that is long enough".to_string()]);
    let empty = summarize_screen(&obj(vec![]));
    assert_eq!(empty.records, 0);
}

#[test]
fn titles_and_snippets_are_capped() {
    let mut items = Vec::new();
    for i in 0..15 {
        let title = format!("{}{}", "t".repeat(130), i);
        items.push(obj(vec![("window_name", s(&title)), ("text", s(&"x".repeat(400)))]));
    }
    let sum = summarize_screen(&data(items));
    assert_eq!(sum.window_titles.len(), 12);
    assert!(sum.window_titles.iter().all(|t| t.chars().count() == 120));
    assert_eq!(sum.snippets.len(), 8);
    assert!(sum.snippets.iter().all(|t| t.chars().count() == 360));
}

#[test]
fn idle_estimate_and_window_length() {
    assert_eq!(idle_seconds_estimate(600, 0, 0), 600);
    assert_eq!(idle_seconds_estimate(600, 2, 2), 400);
    assert_eq!(idle_seconds_estimate(600, 3, 0), 0);
    assert_eq!(idle_seconds_estimate(u64::MAX, 1, 0), u64::MAX / 3);
    assert_eq!(window_seconds(Instant { secs: 0, nanos: 0 }, Instant { secs: 600, nanos: 5 }), 600);
    assert_eq!(window_seconds(Instant { secs: 600, nanos: 0 }, Instant { secs: 0, nanos: 0 }), 0);
    assert_eq!(trim_to_chars("ウィンドウ名", 3), "ウィン");
}

#[test]
fn the_eight_busiest_apps_are_kept() {
    let apps: Vec<AppActivity> = (0..10u64)
        .map(|i| AppActivity { app: format!("app{i}"), seconds: (i * 7) % 10 })
        .collect();
    let top = top_apps(apps.clone());
    assert_eq!(top.len(), 8);
    let secs: Vec<u64> = top.iter().map(|a| a.seconds).collect();
    let mut expected: Vec<u64> = apps.iter().map(|a| a.seconds).collect();
    expected.sort_by(|a, b| b.cmp(a));
    assert_eq!(secs, expected[..8].to_vec());
    let ties = vec![
        AppActivity { app: "a".into(), seconds: 5 },
        AppActivity { app: "b".into(), seconds: 9 },
        AppActivity { app: "c".into(), seconds: 5 },
    ];
    let top = top_apps(ties);
    let names: Vec<&str> = top.iter().map(|a| a.app.as_str()).collect();
    assert_eq!(names, vec!["b", "a", "c"]);
}

#[test]
fn a_busy_search_route_still_counts_as_reachable() {
    assert!(search_route_reachable(200));
    assert!(search_route_reachable(204));
    assert!(search_route_reachable(503));
    assert!(search_route_reachable(429));
    assert!(!search_route_reachable(401));
    assert!(!search_route_reachable(500));
    assert!(!search_route_reachable(302));
}

#[test]
fn typed_text_does_not_change_an_events_kind() {
    let plain = obj(vec![("content", obj(vec![("input_type", s("click")), ("text", s("")), ("key", s("a"))]))]);
    let typed = obj(vec![(
        "content",
        obj(vec![("input_type", s("click")), ("text", s("my password keyboard")), ("key", s("Enter"))]),
    )]);
    assert_eq!(classify_input_metadata(&plain), InputKind::Mouse);
    assert_eq!(classify_input_metadata(&typed), InputKind::Mouse);
}
