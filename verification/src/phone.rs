//! The receiver of the Android phone's status reports: who may post, how a
//! report is cleaned and checked, and what the receiver tells the window.

use vstd::prelude::*;
use crate::models::{PhoneActivityEvent, PhoneReceiverStatus};
use crate::text::{is_blank, trim, take_chars, words};
use crate::ipv4::{ipv4_of, parse_ipv4};

verus! {

/// The value that the `Authorization` header must carry: `Bearer <token>`.
pub open spec fn bearer(token: Seq<char>) -> Seq<char> {
    "Bearer "@ + trim(token)
}

/// A request is authorised when a token is configured and the request's
/// `Authorization` header is exactly `Bearer` and the trimmed token.
pub open spec fn is_authorized(header: Option<Seq<char>>, token: Seq<char>) -> bool {
    !is_blank(token) && header == Some(bearer(token))
}

/// The text of an optional header value.
pub open spec fn header_view(h: Option<&str>) -> Option<Seq<char>> {
    match h {
        Some(t) => Some(t@),
        None => None,
    }
}

/// Whether a request with this `Authorization` header value may post.
pub fn authorized(header: Option<&str>, token: &str) -> (r: bool)
    ensures
        r == is_authorized(header_view(header), token@),
{
    if crate::text::is_blank_text(token) {
        return false;
    }
    let t = crate::text::trim_text(token);
    let expected = crate::text::concat_str("Bearer ", t.as_str());
    match header {
        Some(h) => crate::text::same_text(h, expected.as_str()),
        None => false,
    }
}

/// At most `max_chars` characters of `s`.
pub fn truncate(s: &str, max_chars: usize) -> (r: String)
    ensures
        r@ == take_chars(s@, max_chars as nat),
{
    crate::text::take_chars_text(s, max_chars)
}

/// An optional text trimmed and cut to `max` characters, dropped when that
/// leaves nothing.
pub open spec fn cleaned_opt(s: Option<Seq<char>>, max: nat) -> Option<Seq<char>> {
    match s {
        Some(t) => if take_chars(trim(t), max).len() > 0 {
            Some(take_chars(trim(t), max))
        } else {
            None
        },
        None => None,
    }
}

/// The text of an optional string.
pub open spec fn opt_text(s: Option<String>) -> Option<Seq<char>> {
    match s {
        Some(t) => Some(t@),
        None => None,
    }
}

fn clean_opt(s: Option<String>, max: usize) -> (r: Option<String>)
    ensures
        opt_text(r) == cleaned_opt(opt_text(s), max as nat),
{
    match s {
        Some(t) => {
            let trimmed = crate::text::trim_text(t.as_str());
            let cut = crate::text::take_chars_text(trimmed.as_str(), max);
            if cut.as_str().is_empty() {
                None
            } else {
                Some(cut)
            }
        },
        None => None,
    }
}

/// `b` is the report `a` cleaned: identifiers and names trimmed and cut to
/// their length limits, empty optional texts dropped, the rest unchanged.
pub open spec fn normalized(a: PhoneActivityEvent, b: PhoneActivityEvent) -> bool {
    &&& b.device_id@ == take_chars(trim(a.device_id@), 128)
    &&& b.device_name@ == take_chars(trim(a.device_name@), 128)
    &&& opt_text(b.foreground_app) == cleaned_opt(opt_text(a.foreground_app), 160)
    &&& opt_text(b.foreground_package) == cleaned_opt(opt_text(a.foreground_package), 220)
    &&& opt_text(b.observed_at) == cleaned_opt(opt_text(a.observed_at), 80)
    &&& b.interactive == a.interactive
    &&& b.unlocked == a.unlocked
    &&& b.session_seconds == a.session_seconds
    &&& b.last_interaction_seconds_ago == a.last_interaction_seconds_ago
    &&& b.clicks_1m == a.clicks_1m
    &&& b.scrolls_1m == a.scrolls_1m
    &&& b.app_switches_5m == a.app_switches_5m
    &&& b.pickups_20m == a.pickups_20m
    &&& b.phone_minutes_20m_bits == a.phone_minutes_20m_bits
    &&& b.longest_session_seconds_20m == a.longest_session_seconds_20m
}

/// Cleans a report before it is checked and stored.
pub fn normalize_event(event: &mut PhoneActivityEvent)
    ensures
        normalized(*old(event), *final(event)),
{
    let id = crate::text::trim_text(event.device_id.as_str());
    event.device_id = crate::text::take_chars_text(id.as_str(), 128);
    let name = crate::text::trim_text(event.device_name.as_str());
    event.device_name = crate::text::take_chars_text(name.as_str(), 128);
    event.foreground_app = clean_opt(event.foreground_app.take(), 160);
    event.foreground_package = clean_opt(event.foreground_package.take(), 220);
    event.observed_at = clean_opt(event.observed_at.take(), 80);
}

/// Checks that a cleaned report names its device.
pub fn validate_event(event: &PhoneActivityEvent) -> (r: Result<(), String>)
    ensures
        match r {
            Ok(()) => event.device_id@.len() > 0 && event.device_name@.len() > 0,
            Err(e) => event.device_id@.len() == 0 && e@ == "device_id is required"@ || event.device_id@.len()
                > 0 && event.device_name@.len() == 0 && e@ == "device_name is required"@,
        },
{
    if event.device_id.as_str().is_empty() {
        return Err("device_id is required".to_owned());
    }
    if event.device_name.as_str().is_empty() {
        return Err("device_name is required".to_owned());
    }
    Ok(())
}

/// How a posted report is answered before it is looked at.
#[derive(Debug, Clone, Copy, PartialEq, Eq, Structural)]
pub enum PhoneGate {
    /// The receiver is switched off (503).
    Disabled,
    /// The request does not carry the token (401).
    Unauthorized,
    /// The companion sleeps: the report is acknowledged but neither read nor
    /// stored (202).
    Sleeping,
    /// The report is cleaned, checked and stored.
    Open,
}

/// The answer to a posted report, in the order the checks are made: the
/// receiver must be enabled, the request authorised, and the companion awake.
pub open spec fn gate_of(enabled: bool, header: Option<Seq<char>>, token: Seq<char>, sleeping: bool) -> PhoneGate {
    if !enabled {
        PhoneGate::Disabled
    } else if !is_authorized(header, token) {
        PhoneGate::Unauthorized
    } else if sleeping {
        PhoneGate::Sleeping
    } else {
        PhoneGate::Open
    }
}

/// The answer to a posted report.
pub fn phone_gate(enabled: bool, header: Option<&str>, token: &str, sleeping: bool) -> (g: PhoneGate)
    ensures
        g == gate_of(enabled, header_view(header), token@, sleeping),
{
    if !enabled {
        PhoneGate::Disabled
    } else if !authorized(header, token) {
        PhoneGate::Unauthorized
    } else if sleeping {
        PhoneGate::Sleeping
    } else {
        PhoneGate::Open
    }
}

/// The answer to a posted report as far as it is known before the sleep plan
/// is read: the refusal of a disabled receiver or an unauthorised request,
/// which the companion's sleep does not change, or `None` when only that
/// sleep remains to be checked.
pub fn phone_gate_before_sleep(enabled: bool, header: Option<&str>, token: &str) -> (g: Option<PhoneGate>)
    ensures
        match g {
            Some(x) => x == gate_of(enabled, header_view(header), token@, true) && x == gate_of(
                enabled,
                header_view(header),
                token@,
                false,
            ) && (x == PhoneGate::Disabled || x == PhoneGate::Unauthorized),
            None => enabled && is_authorized(header_view(header), token@),
        },
{
    if !enabled {
        Some(PhoneGate::Disabled)
    } else if !authorized(header, token) {
        Some(PhoneGate::Unauthorized)
    } else {
        None
    }
}

/// Law: a report is read and stored only when the receiver is enabled, the
/// request carries the configured token, and the companion is awake.
pub proof fn law_phone_reports_guarded(enabled: bool, header: Option<Seq<char>>, token: Seq<char>, sleeping: bool)
    ensures
        ({
            let g = if !enabled {
                PhoneGate::Disabled
            } else if !is_authorized(header, token) {
                PhoneGate::Unauthorized
            } else if sleeping {
                PhoneGate::Sleeping
            } else {
                PhoneGate::Open
            };
            g == PhoneGate::Open ==> enabled && !is_blank(token) && header == Some(bearer(token))
                && !sleeping
        }),
{
}

/// The IPv4 address `o` lies in Tailscale's 100.64.0.0/10 range.
pub open spec fn in_tailscale_range(o: [u8; 4]) -> bool {
    o@[0] == 100 && 64 <= o@[1] <= 127
}

/// Whether the IPv4 address `o` lies in Tailscale's 100.64.0.0/10 range.
pub fn is_tailscale_ipv4(o: [u8; 4]) -> (r: bool)
    ensures
        r == in_tailscale_range(o),
{
    o[0] == 100 && 64 <= o[1] && o[1] <= 127
}

/// The address that `t` spells, when it lies in Tailscale's range.
pub open spec fn tailscale_address(t: Seq<char>) -> Option<[u8; 4]> {
    match ipv4_of(t) {
        Some(o) => if in_tailscale_range(o) {
            Some(o)
        } else {
            None
        },
        None => None,
    }
}

/// The address that the Tailscale command line prints (`tailscale ip -4`,
/// first line), when it lies in Tailscale's range.
pub fn tailscale_address_from_cli(output: &str) -> (r: Option<[u8; 4]>)
    ensures
        r == tailscale_address(trim(output@)),
{
    let t = crate::text::trim_text(output);
    match parse_ipv4(t.as_str()) {
        Some(o) => if is_tailscale_ipv4(o) {
            Some(o)
        } else {
            None
        },
        None => None,
    }
}

/// The first address in Tailscale's range among the words `ws` that follow
/// the word `inet`, as an interface listing shows them.
pub open spec fn first_inet_tailscale(ws: Seq<Seq<char>>) -> Option<[u8; 4]>
    decreases ws.len(),
{
    if ws.len() < 2 {
        None
    } else if ws[0] == "inet"@ && tailscale_address(ws[1]) is Some {
        tailscale_address(ws[1])
    } else {
        first_inet_tailscale(ws.drop_first())
    }
}

/// The Tailscale address in the interface listing `text` (the output of
/// `ifconfig`): the first `inet` address in Tailscale's range.
pub fn tailscale_address_from_listing(text: &str) -> (r: Option<[u8; 4]>)
    ensures
        r == first_inet_tailscale(words(text@)),
{
    let ws = crate::text::words_of(text);
    let ghost all = crate::llm::texts(ws@);
    let mut i: usize = 0;
    assert(all.skip(0) =~= all);
    while ws.len() - i > 1
        invariant
            all == crate::llm::texts(ws@),
            all == words(text@),
            i <= ws@.len(),
            first_inet_tailscale(all) == first_inet_tailscale(all.skip(i as int)),
        decreases ws.len() - i,
    {
        let ghost rest = all.skip(i as int);
        assert(rest[0] == ws@[i as int]@);
        assert(rest[1] == ws@[i + 1]@);
        if crate::text::same_text(ws[i].as_str(), "inet") {
            if let Some(o) = parse_ipv4(ws[i + 1].as_str()) {
                if is_tailscale_ipv4(o) {
                    assert(rest.len() >= 2 && rest[0] == "inet"@);
                    assert(tailscale_address(rest[1]) == Some(o));
                    return Some(o);
                }
            }
        }
        assert(rest.drop_first() =~= all.skip(i + 1));
        i += 1;
    }
    assert(all.skip(i as int).len() < 2);
    None
}

/// The address to which the phone posts: `http://<ip>:<port>/v1/phone/activity`.
pub fn endpoint_url(ip: &str, port: u16) -> (u: String)
    ensures
        u@ == "http://"@ + ip@ + ":"@ + crate::text::decimal(port as nat) + "/v1/phone/activity"@,
{
    let n = crate::text::decimal_text(port as u64);
    let mut v: Vec<char> = Vec::new();
    crate::text::extend_str(&mut v, "http://");
    crate::text::extend_str(&mut v, ip);
    crate::text::extend_str(&mut v, ":");
    crate::text::extend_str(&mut v, n.as_str());
    crate::text::extend_str(&mut v, "/v1/phone/activity");
    crate::text::string_of(&v)
}

/// A receiver status with no device information yet.
pub fn receiver_status(
    enabled: bool,
    running: bool,
    tailscale_ip: Option<String>,
    port: u16,
    endpoint: String,
    detail: String,
) -> (s: PhoneReceiverStatus)
    ensures
        s.enabled == enabled,
        s.running == running,
        s.tailscale_ip == tailscale_ip,
        s.port == port,
        s.endpoint == endpoint,
        s.detail == detail,
        s.last_seen_at is None,
        s.latest_activity is None,
{
    PhoneReceiverStatus {
        enabled,
        running,
        tailscale_ip,
        port,
        endpoint,
        detail,
        last_seen_at: None,
        latest_activity: None,
    }
}

/// The status to show next: `next`, keeping the device information of
/// `current` where `next` has none, so that a restart of the receiver does
/// not forget the phone.
pub fn merge_status(next: PhoneReceiverStatus, current: PhoneReceiverStatus) -> (s: PhoneReceiverStatus)
    ensures
        s.enabled == next.enabled,
        s.running == next.running,
        s.tailscale_ip == next.tailscale_ip,
        s.port == next.port,
        s.endpoint == next.endpoint,
        s.detail == next.detail,
        s.last_seen_at == (if next.last_seen_at is Some {
            next.last_seen_at
        } else {
            current.last_seen_at
        }),
        s.latest_activity == (if next.latest_activity is Some {
            next.latest_activity
        } else {
            current.latest_activity
        }),
{
    let mut s = next;
    if s.last_seen_at.is_none() {
        s.last_seen_at = current.last_seen_at;
    }
    if s.latest_activity.is_none() {
        s.latest_activity = current.latest_activity;
    }
    s
}

/// The status with the newest stored report, when there is one.
pub fn with_latest(status: PhoneReceiverStatus, latest: Option<(String, PhoneActivityEvent)>) -> (s:
    PhoneReceiverStatus)
    ensures
        s.enabled == status.enabled,
        s.running == status.running,
        s.tailscale_ip == status.tailscale_ip,
        s.port == status.port,
        s.endpoint == status.endpoint,
        s.detail == status.detail,
        match latest {
            Some((at, e)) => s.last_seen_at == Some(at) && s.latest_activity == Some(e),
            None => s.last_seen_at == status.last_seen_at && s.latest_activity
                == status.latest_activity,
        },
{
    let mut s = status;
    if let Some((at, e)) = latest {
        s.last_seen_at = Some(at);
        s.latest_activity = Some(e);
    }
    s
}

/// What one round of the phone receiver found.
#[derive(Debug, Clone)]
pub enum ReceiverOutcome {
    /// The settings could not be read, for this reason.
    ConfigUnreadable(String),
    /// Android reception is switched off.
    Disabled,
    /// No Tailscale address was found.
    NoTailscale,
    /// The port could not be opened on the address, for this reason.
    BindFailed(String, String),
    /// The receiver listens on the address.
    Listening(String),
    /// The receiver on the address stopped.
    Stopped(String),
}

/// The seconds the receiver waits before its next round after an outcome
/// that leaves it without a server.
pub const RECEIVER_RETRY_SECONDS: u64 = 15;

/// The status the receiver shows after one round with the configured `port`,
/// and the seconds it waits before the next round (none while listening).
pub fn receiver_step(outcome: ReceiverOutcome, port: u16) -> (r: (PhoneReceiverStatus, u64))
    ensures
        r.0.last_seen_at is None,
        r.0.latest_activity is None,
        match outcome {
            ReceiverOutcome::ConfigUnreadable(e) => {
                &&& !r.0.enabled && !r.0.running && r.0.tailscale_ip is None && r.0.port == 0
                &&& r.0.endpoint@ == Seq::<char>::empty()
                &&& r.0.detail@ == "設定の読み込みに失敗: "@ + e@
                &&& r.1 == 15
            },
            ReceiverOutcome::Disabled => {
                &&& !r.0.enabled && !r.0.running && r.0.tailscale_ip is None && r.0.port == port
                &&& r.0.endpoint@ == Seq::<char>::empty()
                &&& r.0.detail@ == "Android連携は無効です。"@
                &&& r.1 == 15
            },
            ReceiverOutcome::NoTailscale => {
                &&& r.0.enabled && !r.0.running && r.0.tailscale_ip is None && r.0.port == port
                &&& r.0.endpoint@ == Seq::<char>::empty()
                &&& r.0.detail@
                    == "TailscaleのIPv4アドレスが見つかりません。Tailscale接続後に自動で再試行します。"@
                &&& r.1 == 15
            },
            ReceiverOutcome::BindFailed(ip, e) => {
                &&& r.0.enabled && !r.0.running && r.0.tailscale_ip == Some(ip) && r.0.port == port
                &&& r.0.endpoint@ == "http://"@ + ip@ + ":"@ + crate::text::decimal(port as nat)
                    + "/v1/phone/activity"@
                &&& r.0.detail@ == "Android受信ポートを開けません: "@ + e@
                &&& r.1 == 15
            },
            ReceiverOutcome::Listening(ip) => {
                &&& r.0.enabled && r.0.running && r.0.tailscale_ip == Some(ip) && r.0.port == port
                &&& r.0.endpoint@ == "http://"@ + ip@ + ":"@ + crate::text::decimal(port as nat)
                    + "/v1/phone/activity"@
                &&& r.0.detail@ == "Tailscale内だけでAndroidからの状態を待っています。"@
                &&& r.1 == 0
            },
            ReceiverOutcome::Stopped(ip) => {
                &&& r.0.enabled && !r.0.running && r.0.tailscale_ip == Some(ip) && r.0.port == port
                &&& r.0.endpoint@ == "http://"@ + ip@ + ":"@ + crate::text::decimal(port as nat)
                    + "/v1/phone/activity"@
                &&& r.0.detail@ == "Android受信サーバーが停止しました。再起動を試します。"@
                &&& r.1 == 2
            },
        },
{
    match outcome {
        ReceiverOutcome::ConfigUnreadable(e) => (
            receiver_status(
                false,
                false,
                None,
                0,
                String::new(),
                crate::text::concat_str("設定の読み込みに失敗: ", e.as_str()),
            ),
            RECEIVER_RETRY_SECONDS,
        ),
        ReceiverOutcome::Disabled => (
            receiver_status(false, false, None, port, String::new(), "Android連携は無効です。".to_owned()),
            RECEIVER_RETRY_SECONDS,
        ),
        ReceiverOutcome::NoTailscale => (
            receiver_status(
                true,
                false,
                None,
                port,
                String::new(),
                "TailscaleのIPv4アドレスが見つかりません。Tailscale接続後に自動で再試行します。".to_owned(),
            ),
            RECEIVER_RETRY_SECONDS,
        ),
        ReceiverOutcome::BindFailed(ip, e) => {
            let endpoint = endpoint_url(ip.as_str(), port);
            let detail = crate::text::concat_str("Android受信ポートを開けません: ", e.as_str());
            (receiver_status(true, false, Some(ip), port, endpoint, detail), RECEIVER_RETRY_SECONDS)
        },
        ReceiverOutcome::Listening(ip) => {
            let endpoint = endpoint_url(ip.as_str(), port);
            (
                receiver_status(
                    true,
                    true,
                    Some(ip),
                    port,
                    endpoint,
                    "Tailscale内だけでAndroidからの状態を待っています。".to_owned(),
                ),
                0,
            )
        },
        ReceiverOutcome::Stopped(ip) => {
            let endpoint = endpoint_url(ip.as_str(), port);
            (
                receiver_status(
                    true,
                    false,
                    Some(ip),
                    port,
                    endpoint,
                    "Android受信サーバーが停止しました。再起動を試します。".to_owned(),
                ),
                2,
            )
        },
    }
}

} // verus!
