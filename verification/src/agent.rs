//! The companion's scheduler: when to observe, when to write the diary, when
//! a proactive message may be sent, and what an observation keeps.

use vstd::prelude::*;
use crate::config::AppConfig;
use crate::clock::{Instant, LocalResolution, rfc3339_instant, whole_minutes, nanos_between};
use crate::models::ActivitySnapshot;

verus! {

/// Seconds between two scheduler ticks.
pub const SCHEDULER_TICK_SECONDS: u64 = 15;

/// Milliseconds before a failed diary attempt may be retried on the same date.
pub const DIARY_RETRY_GAP_MS: u64 = 300_000;

// ---------------------------------------------------------------------------
// Observation cadence
// ---------------------------------------------------------------------------

/// The shortest automatic observation interval: the configured minimum, but
/// never under one minute.
pub open spec fn interval_floor(min_cfg: u64) -> u64 {
    if min_cfg < 60 {
        60
    } else {
        min_cfg
    }
}

/// The longest automatic observation interval: the configured maximum, but
/// never under the shortest.
pub open spec fn interval_ceiling(min_cfg: u64, max_cfg: u64) -> u64 {
    if max_cfg < interval_floor(min_cfg) {
        interval_floor(min_cfg)
    } else {
        max_cfg
    }
}

/// The delay chosen from the entropy `e`: the shortest interval when both
/// bounds agree, else the shortest plus `e` modulo the number of whole
/// seconds in the range.
pub open spec fn delay_from_entropy(min_cfg: u64, max_cfg: u64, e: u64) -> int {
    let lo = interval_floor(min_cfg);
    let hi = interval_ceiling(min_cfg, max_cfg);
    if lo == hi {
        lo as int
    } else {
        lo + (e as int) % ((hi - lo + 1) as int)
    }
}

/// Seconds until the next automatic observation, chosen by the entropy `e`.
pub fn observation_delay_secs(min_cfg: u64, max_cfg: u64, e: u64) -> (d: u64)
    ensures
        d == delay_from_entropy(min_cfg, max_cfg, e),
        interval_floor(min_cfg) <= d <= interval_ceiling(min_cfg, max_cfg),
{
    let lo = if min_cfg < 60 {
        60
    } else {
        min_cfg
    };
    let hi = if max_cfg < lo {
        lo
    } else {
        max_cfg
    };
    if lo == hi {
        lo
    } else {
        lo + e % (hi - lo + 1)
    }
}

/// Seconds until the next automatic observation, drawn from the clock's
/// nanoseconds: somewhere between the shortest and the longest interval.
pub fn next_observation_delay(cfg: &AppConfig) -> (d: u64)
    ensures
        exists|e: u64|
            d == #[trigger] delay_from_entropy(
                cfg.observation_interval_min_seconds,
                cfg.observation_interval_max_seconds,
                e,
            ),
        interval_floor(cfg.observation_interval_min_seconds) <= d <= interval_ceiling(
            cfg.observation_interval_min_seconds,
            cfg.observation_interval_max_seconds,
        ),
{
    let min_cfg = cfg.observation_interval_min_seconds;
    let lo = if min_cfg < 60 {
        60
    } else {
        min_cfg
    };
    let e: u64 = match crate::clock::nanos_since_epoch() {
        Some(n) => n as u64,
        None => lo,
    };
    observation_delay_secs(min_cfg, cfg.observation_interval_max_seconds, e)
}

/// Minutes of activity one observation covers: the configured window, but at
/// least the longest automatic interval rounded up to whole minutes, and at
/// least one minute, so that consecutive observations leave no gap.
pub open spec fn window_minutes(window_cfg: i64, max_interval_secs: u64) -> int {
    let cadence = (max_interval_secs + 59) / 60;
    let w = if window_cfg < cadence {
        cadence as int
    } else {
        window_cfg as int
    };
    if w < 1 {
        1
    } else {
        w
    }
}

/// Law: consecutive observations leave no gap and cover what was asked. The
/// window is at least one minute, never shorter than the configured window,
/// and long enough to cover the longest automatic interval; and it is no
/// longer than needed: it is the configured window, one minute, or the
/// shortest whole number of minutes that covers that interval.
pub proof fn law_window_covers(window_cfg: i64, max_interval_secs: u64)
    ensures
        window_minutes(window_cfg, max_interval_secs) >= 1,
        window_minutes(window_cfg, max_interval_secs) >= window_cfg,
        window_minutes(window_cfg, max_interval_secs) * 60 >= max_interval_secs,
        window_minutes(window_cfg, max_interval_secs) == window_cfg || window_minutes(
            window_cfg,
            max_interval_secs,
        ) == 1 || (window_minutes(window_cfg, max_interval_secs) - 1) * 60 < max_interval_secs,
{
}

/// Minutes of activity one observation covers.
pub fn observation_window_minutes(cfg: &AppConfig) -> (m: i64)
    ensures
        m == window_minutes(cfg.observation_window_minutes, cfg.observation_interval_max_seconds),
{
    let x = cfg.observation_interval_max_seconds;
    let cadence: u64 = x / 60 + if x % 60 != 0 {
        1
    } else {
        0
    };
    assert(cadence == (x + 59) / 60);
    let cadence = cadence as i64;
    let w = if cfg.observation_window_minutes < cadence {
        cadence
    } else {
        cfg.observation_window_minutes
    };
    if w < 1 {
        1
    } else {
        w
    }
}

/// The start of the observation window of `minutes` minutes that ends at
/// `end`; nothing when that instant is not representable.
pub fn window_start(end: Instant, minutes: i64) -> (s: Option<Instant>)
    requires
        minutes >= 1,
    ensures
        match s {
            Some(t) => t.secs == end.secs - minutes * 60 && t.nanos == end.nanos,
            None => !(i64::MIN <= end.secs - minutes * 60),
        },
{
    let secs: i128 = end.secs as i128 - minutes as i128 * 60;
    if secs < i64::MIN as i128 {
        None
    } else {
        Some(Instant { secs: secs as i64, nanos: end.nanos })
    }
}

// ---------------------------------------------------------------------------
// What an observation keeps
// ---------------------------------------------------------------------------

/// `b` is `a` with its screen-text excerpts removed.
pub open spec fn without_screen_text(a: ActivitySnapshot, b: ActivitySnapshot) -> bool {
    &&& b.transient_text_snippets@.len() == 0
    &&& b.start_time == a.start_time
    &&& b.end_time == a.end_time
    &&& b.foreground_apps == a.foreground_apps
    &&& b.window_titles == a.window_titles
    &&& b.keyboard_events == a.keyboard_events
    &&& b.mouse_events == a.mouse_events
    &&& b.input_events_total == a.input_events_total
    &&& b.observed_records == a.observed_records
    &&& b.idle_seconds_estimate == a.idle_seconds_estimate
    &&& b.phone == a.phone
}

/// The snapshot as it is stored: raw screen text is never kept, everything
/// else is.
pub fn persistent_snapshot(snapshot: ActivitySnapshot) -> (s: ActivitySnapshot)
    ensures
        without_screen_text(snapshot, s),
{
    ActivitySnapshot { transient_text_snippets: Vec::new(), ..snapshot }
}

// ---------------------------------------------------------------------------
// Proactive messages
// ---------------------------------------------------------------------------

/// A proactive message may be sent when the last one was sent at least
/// `gap` minutes ago (or none was, or its time cannot be read), and fewer
/// than `max_per_hour` were sent in the last hour.
pub open spec fn notification_permitted(
    now: Instant,
    last: Option<(i64, u32)>,
    sent_last_hour: usize,
    gap: i64,
    max_per_hour: usize,
) -> bool {
    let spaced = match last {
        Some((s, n)) => whole_minutes(nanos_between(Instant { secs: s, nanos: n }, now)) >= gap,
        None => true,
    };
    spaced && sent_last_hour < max_per_hour
}

/// The instant that a stored time stamp denotes, when it is readable.
pub open spec fn stamp_instant(stamp: Option<Seq<char>>) -> Option<(i64, u32)> {
    match stamp {
        Some(t) => rfc3339_instant(t),
        None => None,
    }
}

/// The text of an optional string.
pub open spec fn opt_view(s: Option<&str>) -> Option<Seq<char>> {
    match s {
        Some(t) => Some(t@),
        None => None,
    }
}

/// Whether a proactive message may be sent at `now`, given the time stamp of
/// the last one and how many were sent in the last hour.
pub fn notification_allowed(
    now: Instant,
    last_proactive: Option<&str>,
    sent_last_hour: usize,
    cfg: &AppConfig,
) -> (r: bool)
    ensures
        r == notification_permitted(
            now,
            stamp_instant(opt_view(last_proactive)),
            sent_last_hour,
            cfg.minimum_notification_gap_minutes,
            cfg.max_notifications_per_hour,
        ),
{
    let mut spaced = true;
    if let Some(stamp) = last_proactive {
        if let Some(last) = crate::clock::parse_rfc3339(stamp) {
            let m = crate::clock::minutes_between(last, now);
            if m < cfg.minimum_notification_gap_minutes as i128 {
                spaced = false;
            }
        }
    }
    spaced && sent_last_hour < cfg.max_notifications_per_hour
}

/// Law: a permitted proactive message respects both limits. Fewer than
/// `max_per_hour` were sent in the hour before it, and when the time of the
/// previous one is known, at least `gap` whole minutes separate them.
pub proof fn law_notification_limits(
    now: Instant,
    last: Option<(i64, u32)>,
    sent_last_hour: usize,
    gap: i64,
    max_per_hour: usize,
)
    requires
        notification_permitted(now, last, sent_last_hour, gap, max_per_hour),
    ensures
        sent_last_hour < max_per_hour,
        forall|s: i64, n: u32|
            last == Some((s, n)) ==> whole_minutes(nanos_between(Instant { secs: s, nanos: n }, now))
                >= gap,
{
}

/// Law: the configured gap is the one applied. A proactive message is
/// permitted whenever fewer than `max_per_hour` were sent in the last hour
/// and the last one, if its time is known, is at least `gap` minutes old:
/// no other, larger floor holds it back.
pub proof fn law_notification_gap_is_configured(
    now: Instant,
    last: Option<(i64, u32)>,
    sent_last_hour: usize,
    gap: i64,
    max_per_hour: usize,
)
    requires
        sent_last_hour < max_per_hour,
        forall|s: i64, n: u32|
            last == Some((s, n)) ==> #[trigger] nanos_between(Instant { secs: s, nanos: n }, now)
                >= gap * 60_000_000_000,
    ensures
        notification_permitted(now, last, sent_last_hour, gap, max_per_hour),
{
    if let Some((s, n)) = last {
        let d = nanos_between(Instant { secs: s, nanos: n }, now);
        assert(d >= gap * 60_000_000_000);
        assert(whole_minutes(d) >= gap);
    }
}

/// The time stamp one hour before `now`, from which sent proactive messages
/// are counted.
pub fn hour_ago_stamp(now: Instant) -> (s: Option<String>)
    ensures
        match s {
            Some(t) => now.secs >= i64::MIN + 3600 && crate::clock::utc_rfc3339_text(
                (now.secs - 3600) as i64,
                now.nanos,
            ) == Some(t@),
            None => now.secs < i64::MIN + 3600 || crate::clock::utc_rfc3339_text(
                (now.secs - 3600) as i64,
                now.nanos,
            ) is None,
        },
{
    match crate::clock::shifted(now, -3600) {
        Some(t) => crate::clock::utc_rfc3339(t),
        None => None,
    }
}

/// Whether the observation's wish to speak becomes a message: the model
/// asked to speak, the limits permit it and a Gemini key is configured.
pub fn should_send_proactive(should_speak: bool, permitted: bool, cfg: &AppConfig) -> (r: bool)
    ensures
        r == (should_speak && permitted && !crate::text::is_blank(cfg.gemini_api_key@)),
{
    should_speak && permitted && !crate::text::is_blank_text(cfg.gemini_api_key.as_str())
}

// ---------------------------------------------------------------------------
// Diary
// ---------------------------------------------------------------------------

/// The local time `hour:minute` has reached the configured diary time.
pub open spec fn diary_time_reached(hour: u32, minute: u32, diary_hour: u32, diary_minute: u32) -> bool {
    hour > diary_hour || (hour == diary_hour && minute >= diary_minute)
}

/// Whether the local time `hour:minute` has reached the diary time.
pub fn diary_time_has_come(hour: u32, minute: u32, cfg: &AppConfig) -> (r: bool)
    ensures
        r == diary_time_reached(hour, minute, cfg.diary_hour, cfg.diary_minute),
{
    hour > cfg.diary_hour || (hour == cfg.diary_hour && minute >= cfg.diary_minute)
}

/// Whether a diary may be generated on its own accord: the companion is
/// awake, a Gemini key is configured and the diary time has come (that the
/// date has no diary yet is added by `diary_due`).
pub fn diary_may_be_written(sleeping: bool, hour: u32, minute: u32, cfg: &AppConfig) -> (r: bool)
    ensures
        r == (!sleeping && !crate::text::is_blank(cfg.gemini_api_key@) && diary_time_reached(
            hour,
            minute,
            cfg.diary_hour,
            cfg.diary_minute,
        )),
{
    !sleeping && !crate::text::is_blank_text(cfg.gemini_api_key.as_str()) && diary_time_has_come(
        hour,
        minute,
        cfg,
    )
}

/// The refusal given while the companion sleeps: `<name>は寝ています。`.
pub fn sleeping_refusal(cfg: &AppConfig) -> (s: String)
    ensures
        s@ == cfg.companion_name@ + "は寝ています。"@,
{
    crate::text::concat_str(cfg.companion_name.as_str(), "は寝ています。")
}

/// A request that the companion answers itself (a chat message, a manual
/// observation, a diary) is refused while it sleeps, with `sleeping_refusal`.
pub fn refuse_while_sleeping(sleeping: bool, cfg: &AppConfig) -> (r: Result<(), String>)
    ensures
        r is Err <==> sleeping,
        r matches Err(e) ==> e@ == cfg.companion_name@ + "は寝ています。"@,
{
    if sleeping {
        Err(sleeping_refusal(cfg))
    } else {
        Ok(())
    }
}

/// Whether the scheduler writes today's diary now: one may be written and
/// none has been written for today yet (one diary per day).
pub fn diary_due(sleeping: bool, hour: u32, minute: u32, cfg: &AppConfig, written_today: bool) -> (r: bool)
    ensures
        r == (!written_today && !sleeping && !crate::text::is_blank(cfg.gemini_api_key@)
            && diary_time_reached(hour, minute, cfg.diary_hour, cfg.diary_minute)),
        written_today ==> !r,
{
    !written_today && diary_may_be_written(sleeping, hour, minute, cfg)
}

/// The refusal given when a diary is requested while the companion sleeps.
pub fn sleeping_diary_refusal(cfg: &AppConfig) -> (s: String)
    ensures
        s@ == cfg.companion_name@ + "は寝ています。起きてから日記を生成してください。"@,
{
    crate::text::concat_str(cfg.companion_name.as_str(), "は寝ています。起きてから日記を生成してください。")
}

/// What the diary's day start is, given how the time zone resolved local
/// midnight: the UTC text of the one instant that shows it, or the refusal
/// `local midnight` where no single instant does (a gap or a fold) or that
/// instant cannot be written.
pub open spec fn day_start_of(r: LocalResolution) -> Result<Seq<char>, Seq<char>> {
    match r {
        LocalResolution::Single(i) => match crate::clock::utc_rfc3339_text(i.secs, i.nanos) {
            Some(t) => Ok(t),
            None => Err("local midnight"@),
        },
        _ => Err("local midnight"@),
    }
}

/// `s` is the outcome `day_start_of(r)`, each text taken by its view.
pub open spec fn day_start_outcome(r: LocalResolution, s: Result<String, String>) -> bool {
    match s {
        Ok(t) => day_start_of(r) == Ok::<Seq<char>, Seq<char>>(t@),
        Err(e) => day_start_of(r) == Err::<Seq<char>, Seq<char>>(e@),
    }
}

/// The diary's day start for a resolution of local midnight.
pub fn day_start_text(r: LocalResolution) -> (s: Result<String, String>)
    ensures
        day_start_outcome(r, s),
{
    match r {
        LocalResolution::Single(i) => match crate::clock::utc_rfc3339(i) {
            Some(t) => Ok(t),
            None => Err("local midnight".to_owned()),
        },
        _ => Err("local midnight".to_owned()),
    }
}

/// The time stamp from which the day's observations go into the diary: local
/// midnight of `day`, when that wall-clock time maps to a single instant.
pub fn diary_day_start(day: i32) -> (s: Result<String, String>)
    ensures
        exists|r: LocalResolution|
            crate::clock::resolves_near(r, day, 0, 0) && #[trigger] day_start_outcome(r, s),
        match s {
            Ok(t) => exists|i: Instant|
                crate::clock::near_wall(i, day, 0, 0) && #[trigger] crate::clock::utc_rfc3339_text(
                    i.secs,
                    i.nanos,
                ) == Some(t@),
            Err(e) => e@ == "local midnight"@,
        },
{
    let r = crate::clock::resolve_local(day, 0, 0);
    let s = day_start_text(r);
    proof {
        reveal_strlit("local midnight");
    }
    s
}

// ---------------------------------------------------------------------------
// The scheduler loop
// ---------------------------------------------------------------------------

/// State that the background loop keeps between ticks. Times are
/// milliseconds on a monotonic clock.
#[derive(Debug, Clone)]
pub struct Scheduler {
    pub was_sleeping: bool,
    pub next_observation_ms: u64,
    pub last_diary_attempt: Option<(String, u64)>,
}

/// What one tick asks the loop to do before it considers observing.
#[derive(Debug, Clone, Copy)]
pub struct TickPlan {
    /// Announce that the companion fell asleep or woke up.
    pub emit_rhythm_changed: bool,
    /// Try to write today's diary.
    pub attempt_diary: bool,
    /// Observe now: awake, and the next automatic observation is due.
    pub attempt_observation: bool,
}

/// The last diary attempt as a date text and a time.
pub open spec fn attempt_view(a: Option<(String, u64)>) -> Option<(Seq<char>, u64)> {
    match a {
        Some((d, t)) => Some((d@, t)),
        None => None,
    }
}

/// A new diary attempt is allowed: none was made yet, the date changed, or
/// the retry gap has passed since the last one.
pub open spec fn diary_retry_ready(last: Option<(Seq<char>, u64)>, now_ms: u64, date: Seq<char>) -> bool {
    match last {
        Some((d, at)) => d != date || (if now_ms >= at {
            now_ms - at
        } else {
            0
        }) >= DIARY_RETRY_GAP_MS,
        None => true,
    }
}

/// The tick attempts the diary: awake, a retry is allowed and the diary time
/// has come.
pub open spec fn tick_attempts_diary(
    last: Option<(Seq<char>, u64)>,
    now_ms: u64,
    sleeping: bool,
    date: Seq<char>,
    hour: u32,
    minute: u32,
    diary_hour: u32,
    diary_minute: u32,
) -> bool {
    !sleeping && diary_retry_ready(last, now_ms, date) && diary_time_reached(
        hour,
        minute,
        diary_hour,
        diary_minute,
    )
}

impl Scheduler {
    /// The state when the loop starts: awake, with an observation due at once.
    pub fn new(now_ms: u64) -> (s: Scheduler)
        ensures
            !s.was_sleeping,
            s.next_observation_ms == now_ms,
            s.last_diary_attempt is None,
    {
        Scheduler { was_sleeping: false, next_observation_ms: now_ms, last_diary_attempt: None }
    }

    /// One tick at `now_ms`, given whether the companion sleeps, the local
    /// date text and the local hour and minute. While asleep nothing is
    /// attempted. On waking an observation becomes due at once. The diary is
    /// attempted at most once per date in every retry gap.
    pub fn begin_tick(
        &mut self,
        now_ms: u64,
        sleeping: bool,
        date: &str,
        hour: u32,
        minute: u32,
        cfg: &AppConfig,
    ) -> (p: TickPlan)
        ensures
            p.emit_rhythm_changed == (sleeping != old(self).was_sleeping),
            final(self).was_sleeping == sleeping,
            final(self).next_observation_ms == (if !sleeping && old(self).was_sleeping {
                now_ms
            } else {
                old(self).next_observation_ms
            }),
            p.attempt_diary == tick_attempts_diary(
                attempt_view(old(self).last_diary_attempt),
                now_ms,
                sleeping,
                date@,
                hour,
                minute,
                cfg.diary_hour,
                cfg.diary_minute,
            ),
            attempt_view(final(self).last_diary_attempt) == (if p.attempt_diary {
                Some((date@, now_ms))
            } else {
                attempt_view(old(self).last_diary_attempt)
            }),
            p.attempt_observation == (!sleeping && now_ms >= final(self).next_observation_ms),
    {
        if sleeping {
            let emit = !self.was_sleeping;
            self.was_sleeping = true;
            return TickPlan { emit_rhythm_changed: emit, attempt_diary: false, attempt_observation: false };
        }
        let emit = self.was_sleeping;
        if self.was_sleeping {
            self.was_sleeping = false;
            self.next_observation_ms = now_ms;
        }
        let ready = match &self.last_diary_attempt {
            Some((d, at)) => !crate::text::same_text(d.as_str(), date) || now_ms.saturating_sub(*at)
                >= DIARY_RETRY_GAP_MS,
            None => true,
        };
        let attempt = ready && diary_time_has_come(hour, minute, cfg);
        if attempt {
            self.last_diary_attempt = Some((date.to_owned(), now_ms));
        }
        TickPlan {
            emit_rhythm_changed: emit,
            attempt_diary: attempt,
            attempt_observation: now_ms >= self.next_observation_ms,
        }
    }

    /// Whether an automatic observation is due at `now_ms`. Never while asleep.
    pub fn observation_due(&self, now_ms: u64) -> (r: bool)
        ensures
            r == (!self.was_sleeping && now_ms >= self.next_observation_ms),
    {
        !self.was_sleeping && now_ms >= self.next_observation_ms
    }

    /// Records an observation that finished at `now_ms`; the next one is due
    /// `delay_secs` later.
    pub fn observation_finished(&mut self, now_ms: u64, delay_secs: u64)
        ensures
            final(self).was_sleeping == old(self).was_sleeping,
            final(self).last_diary_attempt == old(self).last_diary_attempt,
            final(self).next_observation_ms == (if now_ms + delay_secs * 1000 <= u64::MAX {
                (now_ms + delay_secs * 1000) as u64
            } else {
                u64::MAX
            }),
    {
        let delay_ms = if delay_secs > u64::MAX / 1000 {
            u64::MAX
        } else {
            delay_secs * 1000
        };
        self.next_observation_ms = now_ms.saturating_add(delay_ms);
    }
}

/// Law: while the companion sleeps a tick attempts no diary.
pub proof fn law_no_diary_while_sleeping(
    last: Option<(Seq<char>, u64)>,
    now_ms: u64,
    date: Seq<char>,
    hour: u32,
    minute: u32,
    diary_hour: u32,
    diary_minute: u32,
)
    ensures
        !tick_attempts_diary(last, now_ms, true, date, hour, minute, diary_hour, diary_minute),
{
}

/// Law: after a diary attempt for `date` at `at`, no tick on the same date
/// attempts again before the retry gap has passed.
pub proof fn law_diary_retry_gap(
    date: Seq<char>,
    at: u64,
    now_ms: u64,
    sleeping: bool,
    hour: u32,
    minute: u32,
    diary_hour: u32,
    diary_minute: u32,
)
    requires
        now_ms < at + DIARY_RETRY_GAP_MS,
    ensures
        !tick_attempts_diary(
            Some((date, at)),
            now_ms,
            sleeping,
            date,
            hour,
            minute,
            diary_hour,
            diary_minute,
        ),
{
}

/// Law: before the configured diary time no tick attempts the diary.
pub proof fn law_no_diary_before_its_time(
    last: Option<(Seq<char>, u64)>,
    now_ms: u64,
    sleeping: bool,
    date: Seq<char>,
    hour: u32,
    minute: u32,
    diary_hour: u32,
    diary_minute: u32,
)
    requires
        hour < diary_hour || (hour == diary_hour && minute < diary_minute),
    ensures
        !tick_attempts_diary(last, now_ms, sleeping, date, hour, minute, diary_hour, diary_minute),
{
}

} // verus!
