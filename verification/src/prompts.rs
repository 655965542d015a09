//! The prompts sent to the models: `{{key}}` placeholders in the configured
//! templates replaced by the current values, and the local-time labels they
//! carry.

use vstd::prelude::*;
use crate::config::AppConfig;
use crate::text::{contains, replace, occurs_at};

verus! {

/// The placeholder for `key`: `{{key}}`.
pub open spec fn placeholder(key: Seq<char>) -> Seq<char> {
    "{{"@ + key + "}}"@
}

/// `t` with the placeholder of each key replaced by its value, key after key
/// in the given order.
pub open spec fn render(t: Seq<char>, values: Seq<(Seq<char>, Seq<char>)>) -> Seq<char>
    decreases values.len(),
{
    if values.len() == 0 {
        t
    } else {
        render(replace(t, placeholder(values[0].0), values[0].1), values.drop_first())
    }
}

/// The texts of a list of key-value pairs.
pub open spec fn pairs_view(values: Seq<(&str, &str)>) -> Seq<(Seq<char>, Seq<char>)> {
    values.map_values(|p: (&str, &str)| (p.0@, p.1@))
}

/// The placeholder for `key`.
fn placeholder_text(key: &str) -> (s: String)
    ensures
        s@ == placeholder(key@),
{
    let mut v: Vec<char> = Vec::new();
    crate::text::extend_str(&mut v, "{{");
    crate::text::extend_str(&mut v, key);
    crate::text::extend_str(&mut v, "}}");
    crate::text::string_of(&v)
}

/// `template` with each `{{key}}` replaced by its value, in the order of
/// `values`.
pub fn render_prompt_template(template: &str, values: &[(&str, &str)]) -> (r: String)
    ensures
        r@ == render(template@, pairs_view(values@)),
{
    let mut rendered = template.to_owned();
    let mut i: usize = 0;
    assert(pairs_view(values@).skip(0) =~= pairs_view(values@));
    while i < values.len()
        invariant
            i <= values@.len(),
            render(template@, pairs_view(values@)) == render(
                rendered@,
                pairs_view(values@).skip(i as int),
            ),
        decreases values.len() - i,
    {
        let ghost rest = pairs_view(values@).skip(i as int);
        assert(rest.drop_first() =~= pairs_view(values@).skip(i + 1));
        assert(rest[0] == (values@[i as int].0@, values@[i as int].1@));
        let (key, value) = values[i];
        let pattern = placeholder_text(key);
        rendered = crate::text::replace_text(rendered.as_str(), pattern.as_str(), value);
        i += 1;
    }
    rendered
}

proof fn lemma_replace_absent(s: Seq<char>, p: Seq<char>, r: Seq<char>)
    requires
        p.len() > 0,
        !contains(s, p),
    ensures
        replace(s, p, r) == s,
    decreases s.len(),
{
    if s.len() >= p.len() {
        assert(!occurs_at(s, p, 0));
        assert(s.subrange(0, p.len() as int) =~= s.take(p.len() as int));
        let t = s.drop_first();
        assert forall|i: int| !occurs_at(t, p, i) by {
            if occurs_at(t, p, i) {
                assert(s.subrange(i + 1, i + 1 + p.len()) =~= t.subrange(i, i + p.len()));
                assert(occurs_at(s, p, i + 1));
            }
        }
        lemma_replace_absent(t, p, r);
        assert(seq![s[0]] + t =~= s);
    }
}

proof fn lemma_placeholder_needs_braces(t: Seq<char>, key: Seq<char>)
    requires
        !contains(t, "{{"@),
    ensures
        !contains(t, placeholder(key)),
{
    reveal_strlit("{{");
    reveal_strlit("}}");
    assert forall|i: int| !occurs_at(t, placeholder(key), i) by {
        if occurs_at(t, placeholder(key), i) {
            let p = placeholder(key);
            assert(t.subrange(i, i + 2) =~= p.subrange(0, 2));
            assert(p.subrange(0, 2) =~= "{{"@);
            assert(occurs_at(t, "{{"@, i));
        }
    }
}

/// Law: a template without `{{` comes out unchanged, whatever the values.
pub proof fn law_render_plain_template(t: Seq<char>, values: Seq<(Seq<char>, Seq<char>)>)
    requires
        !contains(t, "{{"@),
    ensures
        render(t, values) == t,
    decreases values.len(),
{
    if values.len() > 0 {
        reveal_strlit("{{");
        reveal_strlit("}}");
        lemma_placeholder_needs_braces(t, values[0].0);
        lemma_replace_absent(t, placeholder(values[0].0), values[0].1);
        law_render_plain_template(t, values.drop_first());
    }
}

/// Law: with no values the template comes out unchanged.
pub proof fn law_render_no_values(t: Seq<char>)
    ensures
        render(t, seq![]) == t,
{
}

/// The prompt that asks the observation model to judge a window.
pub fn observation_prompt(
    cfg: &AppConfig,
    now_local: &str,
    window_local: &str,
    recent_observations: &str,
    snapshot: &str,
) -> (p: String)
    ensures
        p@ == render(
            cfg.observation_prompt_template@,
            seq![
                ("persona"@, cfg.persona@),
                ("now_local"@, now_local@),
                ("window_local"@, window_local@),
                ("recent_observations"@, recent_observations@),
                ("snapshot"@, snapshot@),
            ],
        ),
{
    let values = [
        ("persona", cfg.persona.as_str()),
        ("now_local", now_local),
        ("window_local", window_local),
        ("recent_observations", recent_observations),
        ("snapshot", snapshot),
    ];
    let p = render_prompt_template(cfg.observation_prompt_template.as_str(), &values);
    assert(pairs_view(values@) =~= seq![
        ("persona"@, cfg.persona@),
        ("now_local"@, now_local@),
        ("window_local"@, window_local@),
        ("recent_observations"@, recent_observations@),
        ("snapshot"@, snapshot@),
    ]);
    p
}

/// The prompt that asks for a short proactive message.
pub fn proactive_prompt(
    cfg: &AppConfig,
    now_local: &str,
    decision_summary: &str,
    decision_intent: &str,
    notification_hint: &str,
    recent_messages: &str,
) -> (p: String)
    ensures
        p@ == render(
            cfg.proactive_prompt_template@,
            seq![
                ("persona"@, cfg.persona@),
                ("now_local"@, now_local@),
                ("decision_summary"@, decision_summary@),
                ("decision_intent"@, decision_intent@),
                ("notification_hint"@, notification_hint@),
                ("recent_messages"@, recent_messages@),
            ],
        ),
{
    let values = [
        ("persona", cfg.persona.as_str()),
        ("now_local", now_local),
        ("decision_summary", decision_summary),
        ("decision_intent", decision_intent),
        ("notification_hint", notification_hint),
        ("recent_messages", recent_messages),
    ];
    let p = render_prompt_template(cfg.proactive_prompt_template.as_str(), &values);
    assert(pairs_view(values@) =~= seq![
        ("persona"@, cfg.persona@),
        ("now_local"@, now_local@),
        ("decision_summary"@, decision_summary@),
        ("decision_intent"@, decision_intent@),
        ("notification_hint"@, notification_hint@),
        ("recent_messages"@, recent_messages@),
    ]);
    p
}

/// The prompt for a reply in conversation.
pub fn chat_prompt(
    cfg: &AppConfig,
    now_local: &str,
    observations: &str,
    recent_messages: &str,
    user_text: &str,
) -> (p: String)
    ensures
        p@ == render(
            cfg.chat_prompt_template@,
            seq![
                ("persona"@, cfg.persona@),
                ("now_local"@, now_local@),
                ("user_name"@, cfg.user_name@),
                ("companion_name"@, cfg.companion_name@),
                ("observations"@, observations@),
                ("recent_messages"@, recent_messages@),
                ("user_text"@, user_text@),
            ],
        ),
{
    let values = [
        ("persona", cfg.persona.as_str()),
        ("now_local", now_local),
        ("user_name", cfg.user_name.as_str()),
        ("companion_name", cfg.companion_name.as_str()),
        ("observations", observations),
        ("recent_messages", recent_messages),
        ("user_text", user_text),
    ];
    let p = render_prompt_template(cfg.chat_prompt_template.as_str(), &values);
    assert(pairs_view(values@) =~= seq![
        ("persona"@, cfg.persona@),
        ("now_local"@, now_local@),
        ("user_name"@, cfg.user_name@),
        ("companion_name"@, cfg.companion_name@),
        ("observations"@, observations@),
        ("recent_messages"@, recent_messages@),
        ("user_text"@, user_text@),
    ]);
    p
}

/// The prompt for the day's diary.
pub fn diary_prompt(
    cfg: &AppConfig,
    now_local: &str,
    date: &str,
    observations: &str,
    recent_messages: &str,
) -> (p: String)
    ensures
        p@ == render(
            cfg.diary_prompt_template@,
            seq![
                ("persona"@, cfg.persona@),
                ("now_local"@, now_local@),
                ("date"@, date@),
                ("observations"@, observations@),
                ("recent_messages"@, recent_messages@),
            ],
        ),
{
    let values = [
        ("persona", cfg.persona.as_str()),
        ("now_local", now_local),
        ("date", date),
        ("observations", observations),
        ("recent_messages", recent_messages),
    ];
    let p = render_prompt_template(cfg.diary_prompt_template.as_str(), &values);
    assert(pairs_view(values@) =~= seq![
        ("persona"@, cfg.persona@),
        ("now_local"@, now_local@),
        ("date"@, date@),
        ("observations"@, observations@),
        ("recent_messages"@, recent_messages@),
    ]);
    p
}

/// The pattern of the local time label of the prompts: date, UTC offset,
/// and the time on the 24-hour and on the 12-hour clock.
pub open spec fn label_pattern() -> Seq<char> {
    "%Y-%m-%d %:z (24時間表記 %H:%M:%S, 12時間表記 %p %I:%M:%S)"@
}

/// `s` is the label of the local time at the clock reading `now`: the
/// instant written with `label_pattern` at one offset of less than a day;
/// empty when the clock could not be read or the instant lies outside
/// chrono's range.
pub open spec fn time_label(now: Option<crate::clock::Instant>, s: Seq<char>) -> bool {
    match now {
        Some(i) => if crate::clock::utc_rfc3339_text(i.secs, i.nanos) is Some {
            exists|off: i32|
                -86400 < off < 86400 && #[trigger] crate::clock::local_text(
                    i.secs,
                    i.nanos,
                    off,
                    label_pattern(),
                ) == s
        } else {
            s.len() == 0
        },
        None => s.len() == 0,
    }
}

/// The local time label of the instant `now`.
pub fn local_time_label_at(now: crate::clock::Instant) -> (s: String)
    ensures
        time_label(Some(now), s@),
{
    match crate::clock::local_format(now, "%Y-%m-%d %:z (24時間表記 %H:%M:%S, 12時間表記 %p %I:%M:%S)") {
        Some((s, off)) => {
            assert(crate::clock::local_text(now.secs, now.nanos, off, label_pattern()) == s@);
            s
        },
        None => String::new(),
    }
}

/// The local time now, as the prompts show it: date, UTC offset, and the
/// time on the 24-hour and on the 12-hour clock.
pub fn local_time_label_now() -> (s: String)
    ensures
        exists|now: Option<crate::clock::Instant>| #[trigger] time_label(now, s@),
{
    let now = crate::clock::utc_now();
    let s = match now {
        Some(i) => local_time_label_at(i),
        None => String::new(),
    };
    assert(time_label(now, s@));
    s
}

/// `s` shows the stored RFC 3339 time stamp `raw` in local time for a
/// prompt: with the pattern `%Y-%m-%d %H:%M:%S %:z (%p %I:%M:%S)` at a UTC
/// offset of less than a day when the stamp reads as an instant that chrono
/// can show; the stamp itself otherwise.
pub open spec fn localized(raw: Seq<char>, s: Seq<char>) -> bool {
    match crate::clock::rfc3339_instant(raw) {
        Some((secs, nanos)) => if crate::clock::utc_rfc3339_text(secs, nanos) is Some {
            exists|off: i32|
                -86400 < off < 86400 && #[trigger] crate::clock::local_text(
                    secs,
                    nanos,
                    off,
                    "%Y-%m-%d %H:%M:%S %:z (%p %I:%M:%S)"@,
                ) == s
        } else {
            s == raw
        },
        None => s == raw,
    }
}

/// A stored RFC 3339 time stamp in local time for a prompt; the stamp itself
/// when it cannot be read.
pub fn localize_timestamp(raw: &str) -> (s: String)
    ensures
        localized(raw@, s@),
{
    match crate::clock::parse_rfc3339(raw) {
        Some(t) => match crate::clock::local_format(t, "%Y-%m-%d %H:%M:%S %:z (%p %I:%M:%S)") {
            Some((s, off)) => {
                assert(crate::clock::local_text(t.secs, t.nanos, off, "%Y-%m-%d %H:%M:%S %:z (%p %I:%M:%S)"@) == s@);
                s
            },
            None => raw.to_owned(),
        },
        None => raw.to_owned(),
    }
}

/// The observation window in local time: `start 〜 end`, each stamp shown
/// as `localize_timestamp` shows it.
pub fn window_label(start: &str, end: &str) -> (s: String)
    ensures
        exists|a: Seq<char>, b: Seq<char>|
            #![trigger localized(start@, a), localized(end@, b)]
            localized(start@, a) && localized(end@, b) && s@ == a + " 〜 "@ + b,
{
    let a = localize_timestamp(start);
    let b = localize_timestamp(end);
    let mut v: Vec<char> = Vec::new();
    crate::text::extend_str(&mut v, a.as_str());
    crate::text::extend_str(&mut v, " 〜 ");
    crate::text::extend_str(&mut v, b.as_str());
    let s = crate::text::string_of(&v);
    assert(localized(start@, a@) && localized(end@, b@) && s@ == a@ + " 〜 "@ + b@);
    s
}

} // verus!
