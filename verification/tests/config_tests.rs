use yandere_companion::config::{
    apply_upgrades, config_path, default_with_token, initial_config, is_app_bundle_path,
    upgrade_config, AppConfig, DEFAULT_PERSONA, OLD_DEFAULT_PERSONA,
};

#[test]
fn defaults_are_the_built_in_settings() {
    let c = AppConfig::default();
    assert_eq!(c.companion_name, "美月");
    assert_eq!(c.user_name, "あなた");
    assert_eq!(c.persona, DEFAULT_PERSONA);
    assert_eq!(c.cloudflare_model, "@cf/google/gemma-4-26b-a4b-it");
    assert_eq!(c.observer_primary_model, "gemma-4-26b-a4b-it");
    assert_eq!(c.observer_fallback_model, "gemma-4-31b-it");
    assert_eq!(c.observer_last_fallback_model, "gemini-3.1-flash-lite");
    assert_eq!(c.diary_model, "gemini-3.8-flash");
    assert_eq!(c.screenpipe_url, "http://127.0.0.1:3030");
    assert!(c.phone_receiver_enabled);
    assert_eq!(c.phone_receiver_port, 38465);
    assert_eq!(c.phone_receiver_token, "");
    assert_eq!(c.observation_interval_min_seconds, 300);
    assert_eq!(c.observation_interval_max_seconds, 600);
    assert_eq!(c.observation_window_minutes, 10);
    assert_eq!(c.minimum_notification_gap_minutes, 20);
    assert_eq!(c.max_notifications_per_hour, 2);
    assert_eq!((c.diary_hour, c.diary_minute), (22, 30));
    assert!(c.gemini_api_key.is_empty());
}

#[test]
fn config_file_lives_in_the_data_directory() {
    assert_eq!(config_path("/tmp/companion"), "/tmp/companion/config.toml");
}

#[test]
fn initial_config_has_a_fresh_token() {
    let c = initial_config();
    assert!(c.phone_receiver_token.starts_with("yc-"));
    assert_eq!(c.phone_receiver_token.chars().count(), 39);
    let uuid = &c.phone_receiver_token[3..];
    let dashes: Vec<usize> = uuid.char_indices().filter(|(_, ch)| *ch == '-').map(|(i, _)| i).collect();
    assert_eq!(dashes, vec![8, 13, 18, 23]);
    assert_eq!(uuid.chars().nth(14), Some('4'));
    let other = initial_config();
    assert_ne!(c.phone_receiver_token, other.phone_receiver_token);
}

#[test]
fn untouched_current_config_needs_no_upgrade() {
    let c = default_with_token("yc-token".to_string());
    let (u, changed) = apply_upgrades(c, "companion_name = \"美月\"", "fresh".to_string());
    assert!(!changed);
    assert_eq!(u.phone_receiver_token, "yc-token");
    assert_eq!(u.persona, DEFAULT_PERSONA);
}

#[test]
fn leftover_groq_settings_force_a_rewrite() {
    let c = default_with_token("yc-token".to_string());
    let (_, changed) = apply_upgrades(c.clone(), "groq_api_key = \"x\"", "fresh".to_string());
    assert!(changed);
    let (_, changed) = apply_upgrades(c, "groq_model = \"qwen\"", "fresh".to_string());
    assert!(changed);
}

#[test]
fn missing_token_port_old_persona_and_old_diary_time_are_upgraded() {
    let mut c = default_with_token("   ".to_string());
    c.phone_receiver_port = 0;
    c.persona = format!("\n{}\n  ", OLD_DEFAULT_PERSONA.trim());
    c.diary_hour = 21;
    c.diary_minute = 30;
    let (u, changed) = apply_upgrades(c, "", "yc-new".to_string());
    assert!(changed);
    assert_eq!(u.phone_receiver_token, "yc-new");
    assert_eq!(u.phone_receiver_port, 38465);
    assert_eq!(u.persona, DEFAULT_PERSONA);
    assert_eq!((u.diary_hour, u.diary_minute), (22, 30));
}

#[test]
fn customised_persona_and_diary_time_are_kept() {
    let mut c = default_with_token("yc-token".to_string());
    c.persona = "my own persona".to_string();
    c.diary_hour = 21;
    c.diary_minute = 45;
    let (u, changed) = apply_upgrades(c, "", "fresh".to_string());
    assert!(!changed);
    assert_eq!(u.persona, "my own persona");
    assert_eq!((u.diary_hour, u.diary_minute), (21, 45));
}

#[test]
fn upgrade_draws_a_token_only_when_missing() {
    let c = default_with_token(String::new());
    let (u, changed) = upgrade_config(c, "");
    assert!(changed);
    assert!(u.phone_receiver_token.starts_with("yc-"));
    assert_eq!(u.phone_receiver_token.len(), 39);
    let c = default_with_token("keep".to_string());
    let (u, changed) = upgrade_config(c, "");
    assert!(!changed);
    assert_eq!(u.phone_receiver_token, "keep");
}

#[test]
fn app_bundle_detection() {
    assert!(is_app_bundle_path("/Applications/Yandere Companion.app/Contents/MacOS/yandere-companion"));
    assert!(!is_app_bundle_path("/Users/me/src/target/debug/yandere-companion"));
}

#[test]
fn an_upgraded_config_is_not_upgraded_again() {
    let mut c = default_with_token(String::new());
    c.phone_receiver_port = 0;
    c.persona = OLD_DEFAULT_PERSONA.to_string();
    c.diary_hour = 21;
    c.diary_minute = 30;
    let (u, changed) = apply_upgrades(c, "groq_model = \"qwen\"", "yc-new".to_string());
    assert!(changed);
    let (again, changed_again) = apply_upgrades(u.clone(), "", "yc-other".to_string());
    assert!(!changed_again);
    assert_eq!(again.phone_receiver_token, u.phone_receiver_token);
    assert_eq!(again.persona, u.persona);
}

#[test]
fn fresh_settings_are_kept_on_the_next_load() {
    let c = initial_config();
    let raw = "companion_name = \"美月\"\npersona = \"...\"\n";
    let (u, changed) = upgrade_config(c.clone(), raw);
    assert!(!changed);
    assert_eq!(u.persona, c.persona);
    assert_eq!(u.phone_receiver_token, c.phone_receiver_token);
    assert_eq!(u.phone_receiver_port, c.phone_receiver_port);
    assert_eq!((u.diary_hour, u.diary_minute), (c.diary_hour, c.diary_minute));
    assert_ne!(DEFAULT_PERSONA.trim(), OLD_DEFAULT_PERSONA.trim());
}
