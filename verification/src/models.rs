//! The records that the companion stores, shows and hands to its models.
//!
//! Numbers that the services report as 32-bit floating point (minutes of phone
//! use, focus level) are carried as the bits of that `f32`: this library never
//! computes with them, it only passes them on.

use vstd::prelude::*;

verus! {

/// Time attributed to one foreground application within an observation window.
#[derive(Debug, Clone)]
pub struct AppActivity {
    pub app: String,
    pub seconds: u64,
}

/// One status report sent by the Android phone.
#[derive(Debug, Clone)]
pub struct PhoneActivityEvent {
    pub device_id: String,
    pub device_name: String,
    pub observed_at: Option<String>,
    pub interactive: bool,
    pub unlocked: bool,
    pub foreground_app: Option<String>,
    pub foreground_package: Option<String>,
    pub session_seconds: Option<u64>,
    pub last_interaction_seconds_ago: Option<u64>,
    pub clicks_1m: Option<u32>,
    pub scrolls_1m: Option<u32>,
    pub app_switches_5m: Option<u32>,
    pub pickups_20m: Option<u32>,
    /// Bits of the `f32` minutes of phone use in the last 20 minutes.
    pub phone_minutes_20m_bits: Option<u32>,
    pub longest_session_seconds_20m: Option<u64>,
}

/// What the phone reports said within an observation window.
#[derive(Debug, Clone)]
pub struct PhoneActivitySummary {
    pub last_seen_at: String,
    pub connected_recently: bool,
    pub device_name: String,
    pub interactive: bool,
    pub unlocked: bool,
    pub foreground_app: Option<String>,
    pub foreground_package: Option<String>,
    pub session_seconds: Option<u64>,
    pub last_interaction_seconds_ago: Option<u64>,
    pub clicks_1m: Option<u32>,
    pub scrolls_1m: Option<u32>,
    pub app_switches_5m: Option<u32>,
    pub pickups_20m: Option<u32>,
    /// Bits of the `f32` minutes of phone use in the last 20 minutes.
    pub phone_minutes_20m_bits: Option<u32>,
    pub longest_session_seconds_20m: Option<u64>,
    pub samples_in_window: usize,
    pub observed_apps: Vec<String>,
}

/// State of the receiver that accepts phone reports.
#[derive(Debug, Clone)]
pub struct PhoneReceiverStatus {
    pub enabled: bool,
    pub running: bool,
    pub tailscale_ip: Option<String>,
    pub port: u16,
    pub endpoint: String,
    pub detail: String,
    pub last_seen_at: Option<String>,
    pub latest_activity: Option<PhoneActivityEvent>,
}

/// What the desktop recorder saw in one observation window.
#[derive(Debug, Clone)]
pub struct ActivitySnapshot {
    pub start_time: String,
    pub end_time: String,
    pub foreground_apps: Vec<AppActivity>,
    pub window_titles: Vec<String>,
    pub keyboard_events: usize,
    pub mouse_events: usize,
    pub input_events_total: usize,
    pub observed_records: usize,
    pub idle_seconds_estimate: u64,
    /// Screen text excerpts; they are handed to the observation model only and
    /// never stored.
    pub transient_text_snippets: Vec<String>,
    pub phone: Option<PhoneActivitySummary>,
}

/// The observation model's judgement of one window.
#[derive(Debug, Clone)]
pub struct ObservationDecision {
    pub activity: String,
    pub working: bool,
    /// Bits of the `f32` focus level between 0 and 1.
    pub focus_level_bits: u32,
    pub summary: String,
    pub active_app: String,
    pub mood: String,
    pub should_speak: bool,
    pub speak_reason: String,
    pub intent: String,
    pub notification_hint: String,
}

impl ObservationDecision {
    /// The judgement used when nothing has been observed yet.
    pub fn unobserved() -> (d: ObservationDecision)
        ensures
            d.activity@ == "unknown"@,
            !d.working,
            d.focus_level_bits == 0,
            d.summary@ == "まだ十分な観察情報がありません。"@,
            d.active_app@ == ""@,
            d.mood@ == "calm"@,
            !d.should_speak,
            d.speak_reason@ == "insufficient_data"@,
            d.intent@ == "none"@,
            d.notification_hint@ == Seq::<char>::empty(),
    {
        ObservationDecision {
            activity: "unknown".to_owned(),
            working: false,
            focus_level_bits: 0,
            summary: "まだ十分な観察情報がありません。".to_owned(),
            active_app: "".to_owned(),
            mood: "calm".to_owned(),
            should_speak: false,
            speak_reason: "insufficient_data".to_owned(),
            intent: "none".to_owned(),
            notification_hint: String::new(),
        }
    }
}

impl Default for ObservationDecision {
    fn default() -> (d: ObservationDecision)
        ensures
            d.activity@ == "unknown"@,
            !d.working,
            d.focus_level_bits == 0,
            d.summary@ == "まだ十分な観察情報がありません。"@,
            d.active_app@ == ""@,
            d.mood@ == "calm"@,
            !d.should_speak,
            d.speak_reason@ == "insufficient_data"@,
            d.intent@ == "none"@,
            d.notification_hint@ == Seq::<char>::empty(),
    {
        ObservationDecision::unobserved()
    }
}

/// A stored observation.
#[derive(Debug, Clone)]
pub struct StoredObservation {
    pub id: i64,
    pub created_at: String,
    pub snapshot: ActivitySnapshot,
    pub decision: ObservationDecision,
}

/// One line of the conversation.
#[derive(Debug, Clone)]
pub struct ChatMessage {
    pub id: i64,
    pub created_at: String,
    pub role: String,
    pub text: String,
    pub proactive: bool,
}

/// The companion's diary for one local date.
#[derive(Debug, Clone)]
pub struct DiaryEntry {
    pub date: String,
    pub created_at: String,
    pub text: String,
}

/// Whether the companion sleeps now, and when tonight's sleep starts and ends.
#[derive(Debug, Clone)]
pub struct RhythmStatus {
    pub sleeping: bool,
    pub sleep_at_local: String,
    pub wake_at_local: String,
    pub sleep_at_display: String,
    pub wake_at_display: String,
}

/// What the desktop recorder reports about itself.
#[derive(Debug, Clone)]
pub struct ScreenpipeHealth {
    pub reachable: bool,
    pub screen_capture_ok: bool,
    pub accessibility_ok: bool,
    pub input_monitoring_ok: bool,
    pub ui_recorder_running: bool,
    pub events_inserted: u64,
    pub frame_status: String,
    pub vision_reason: String,
    pub ui_mode: String,
    pub screenpipe_version: Option<String>,
    pub detail: String,
}

impl ScreenpipeHealth {
    /// Observation can run only when the recorder is reachable and every
    /// capture permission and the UI recorder are in place.
    pub open spec fn spec_observation_ready(&self) -> bool {
        self.reachable && self.screen_capture_ok && self.accessibility_ok
            && self.input_monitoring_ok && self.ui_recorder_running
    }

    /// Whether the recorder is ready for observation.
    pub fn observation_ready(&self) -> (r: bool)
        ensures
            r == self.spec_observation_ready(),
    {
        self.reachable && self.screen_capture_ok && self.accessibility_ok
            && self.input_monitoring_ok && self.ui_recorder_running
    }
}

/// Everything the window shows when it opens.
#[derive(Debug, Clone)]
pub struct BootstrapData {
    pub config: crate::config::AppConfig,
    pub messages: Vec<ChatMessage>,
    pub last_observation: Option<StoredObservation>,
    pub today_diary: Option<DiaryEntry>,
    pub screenpipe_ok: bool,
    pub screenpipe_health: ScreenpipeHealth,
    pub phone_receiver: PhoneReceiverStatus,
    pub rhythm: RhythmStatus,
    pub app_version: String,
    pub log_path: String,
    pub screenpipe_log_path: String,
}

} // verus!
