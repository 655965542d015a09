use yandere_companion::config::AppConfig;
use yandere_companion::prompts::{
    chat_prompt, diary_prompt, localize_timestamp, observation_prompt, proactive_prompt,
    render_prompt_template, window_label,
};

#[test]
fn placeholders_are_replaced_in_order() {
    let t = "{{a}} and {{b}} and {{a}}";
    assert_eq!(render_prompt_template(t, &[("a", "1"), ("b", "2")]), "1 and 2 and 1");
    // A value that itself holds a later placeholder is replaced again.
    assert_eq!(render_prompt_template("{{a}}", &[("a", "{{b}}"), ("b", "x")]), "x");
    // An earlier key is not looked for again.
    assert_eq!(render_prompt_template("{{b}}", &[("a", "1"), ("b", "{{a}}")]), "{{a}}");
    assert_eq!(render_prompt_template("plain text", &[("a", "1")]), "plain text");
    assert_eq!(render_prompt_template("{{a}}", &[]), "{{a}}");
}

#[test]
fn chat_prompt_fills_the_default_template() {
    let cfg = AppConfig::default();
    let p = chat_prompt(&cfg, "NOW", "[]", "[{\"role\":\"user\"}]", "何してた？");
    assert!(p.starts_with(&cfg.persona));
    assert!(p.contains("現在のPCローカル時刻: NOW"));
    assert!(p.contains("ユーザー名: あなた"));
    assert!(p.contains("それは美月自身が何をしていたかを聞かれています"));
    assert!(p.contains("ユーザー: 何してた？\n\n通常は1〜3文"));
    assert!(!p.contains("{{"));
}

#[test]
fn other_prompts_fill_their_templates() {
    let cfg = AppConfig::default();
    let p = observation_prompt(&cfg, "NOW", "WINDOW", "RECENT", "SNAP");
    assert!(p.contains("今回の観察区間（PCローカル時刻）: WINDOW"));
    assert!(p.ends_with("今回の観察材料:\nSNAP\n"));
    let p = proactive_prompt(&cfg, "NOW", "SUM", "INT", "HINT", "MSGS");
    assert!(p.contains("観察結果: SUM\n話しかけたい意図: INT\n参考メモ: HINT"));
    assert!(p.ends_with("直近の会話（PCローカル時刻）: MSGS"));
    let p = diary_prompt(&cfg, "NOW", "2024-01-01", "OBS", "MSGS");
    assert!(p.contains("2024-01-01 の、あなた自身の私的な日記"));
    assert!(!p.contains("{{"));
}

#[test]
fn unreadable_timestamps_are_shown_as_they_are() {
    assert_eq!(localize_timestamp("not a time"), "not a time");
    assert_eq!(window_label("a", "b"), "a 〜 b");
    let l = localize_timestamp("2024-01-01T00:00:00+00:00");
    assert!(l.contains(':') && l.contains('('));
}

#[test]
fn window_label_shows_both_stamps_in_local_time() {
    let start = "2024-01-01T00:00:00+00:00";
    let end = "2024-01-01T00:10:00.5+00:00";
    let label = window_label(start, end);
    assert_eq!(
        label,
        format!("{} 〜 {}", localize_timestamp(start), localize_timestamp(end))
    );
    assert_ne!(label, format!("{} 〜 {}", start, end));
    assert_eq!(window_label("x", end), format!("x 〜 {}", localize_timestamp(end)));
}
