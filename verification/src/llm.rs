//! Talking to the language models: which provider is asked next when one
//! fails, the circuit breaker that bypasses Google after infrastructure
//! errors, the prompts, and reading the text out of the replies.

use vstd::prelude::*;
use crate::config::AppConfig;
use crate::json::{JsonValue, as_str, as_bool, get, pointer, tokens_view};
use crate::text::{ascii_lower, contains, is_blank, replace, trim, starts_with, ends_with};

verus! {

/// Seconds for which Google AI is bypassed after an infrastructure error.
pub const GOOGLE_CIRCUIT_SECONDS: i64 = 600;

// ---------------------------------------------------------------------------
// Provider configuration and error classes
// ---------------------------------------------------------------------------

/// Cloudflare Workers AI can be used: account, token and model are all set.
pub open spec fn cloudflare_ready(cfg: AppConfig) -> bool {
    !is_blank(cfg.cloudflare_account_id@) && !is_blank(cfg.cloudflare_api_token@) && !is_blank(
        cfg.cloudflare_model@,
    )
}

/// Whether Cloudflare Workers AI is configured.
pub fn cloudflare_configured(cfg: &AppConfig) -> (r: bool)
    ensures
        r == cloudflare_ready(*cfg),
{
    !crate::text::is_blank_text(cfg.cloudflare_account_id.as_str())
        && !crate::text::is_blank_text(cfg.cloudflare_api_token.as_str())
        && !crate::text::is_blank_text(cfg.cloudflare_model.as_str())
}

/// Whether a Gemini API key is configured.
pub fn gemini_configured(cfg: &AppConfig) -> (r: bool)
    ensures
        r == !is_blank(cfg.gemini_api_key@),
{
    !crate::text::is_blank_text(cfg.gemini_api_key.as_str())
}

/// A Google AI request needs a Gemini API key: the refusal without one.
pub fn require_gemini(cfg: &AppConfig) -> (r: Result<(), String>)
    ensures
        r is Ok <==> !is_blank(cfg.gemini_api_key@),
        r matches Err(e) ==> e@ == "Gemini API key is not configured"@,
{
    if gemini_configured(cfg) {
        Ok(())
    } else {
        Err("Gemini API key is not configured".to_owned())
    }
}

/// A Workers AI request needs account, token and model: the refusal when one
/// is missing.
pub fn require_cloudflare(cfg: &AppConfig) -> (r: Result<(), String>)
    ensures
        r is Ok <==> cloudflare_ready(*cfg),
        r matches Err(e) ==> e@ == "Cloudflare Workers AI is not configured"@,
{
    if cloudflare_configured(cfg) {
        Ok(())
    } else {
        Err("Cloudflare Workers AI is not configured".to_owned())
    }
}

/// Where the last `n` of `len` items begin (the observation prompt shows
/// the last six stored observations and the chat prompt the last four,
/// oldest first).
pub fn last_items_start(len: usize, n: usize) -> (i: usize)
    ensures
        i == (if len > n {
            len - n
        } else {
            0
        }),
{
    if len > n {
        len - n
    } else {
        0
    }
}

/// The markers of an infrastructure failure (server errors, timeouts,
/// broken connections), looked for in the lower-cased error text.
pub open spec fn infrastructure_marker(t: Seq<char>) -> bool {
    ||| contains(t, "http 500"@)
    ||| contains(t, "http 502"@)
    ||| contains(t, "http 503"@)
    ||| contains(t, "http 504"@)
    ||| contains(t, "http 408"@)
    ||| contains(t, "timed out"@)
    ||| contains(t, "timeout"@)
    ||| contains(t, "error sending request"@)
    ||| contains(t, "connection reset"@)
    ||| contains(t, "connection refused"@)
    ||| contains(t, "connect error"@)
}

/// The error (its whole chain of causes as text) is an infrastructure failure.
pub open spec fn infrastructure_error(e: Seq<char>) -> bool {
    infrastructure_marker(ascii_lower(e))
}

/// The error (its whole chain of causes as text) is a quota or rate limit.
pub open spec fn rate_limit_error(e: Seq<char>) -> bool {
    ||| contains(e, "HTTP 429"@)
    ||| contains(e, "RESOURCE_EXHAUSTED"@)
    ||| contains(ascii_lower(e), "rate limit"@)
}

/// Law: server errors, timeouts and broken connections are infrastructure
/// failures, and quota errors are rate limits. Whatever else an error text
/// says, it is classified as an infrastructure failure when its lower-cased
/// form names HTTP 500, 502, 503, 504 or 408, a timeout, a failed request
/// send, or a reset, refused or failed connection; and as a rate limit when
/// it names HTTP 429, `RESOURCE_EXHAUSTED`, or (in any case) a rate limit.
pub proof fn law_error_classes(e: Seq<char>)
    ensures
        contains(ascii_lower(e), "http 500"@) ==> infrastructure_error(e),
        contains(ascii_lower(e), "http 502"@) ==> infrastructure_error(e),
        contains(ascii_lower(e), "http 503"@) ==> infrastructure_error(e),
        contains(ascii_lower(e), "http 504"@) ==> infrastructure_error(e),
        contains(ascii_lower(e), "http 408"@) ==> infrastructure_error(e),
        contains(ascii_lower(e), "timed out"@) ==> infrastructure_error(e),
        contains(ascii_lower(e), "timeout"@) ==> infrastructure_error(e),
        contains(ascii_lower(e), "error sending request"@) ==> infrastructure_error(e),
        contains(ascii_lower(e), "connection reset"@) ==> infrastructure_error(e),
        contains(ascii_lower(e), "connection refused"@) ==> infrastructure_error(e),
        contains(ascii_lower(e), "connect error"@) ==> infrastructure_error(e),
        contains(e, "HTTP 429"@) ==> rate_limit_error(e),
        contains(e, "RESOURCE_EXHAUSTED"@) ==> rate_limit_error(e),
        contains(ascii_lower(e), "rate limit"@) ==> rate_limit_error(e),
{
}

/// Whether the error text `e` reports an infrastructure failure.
pub fn is_google_infrastructure_error(e: &str) -> (r: bool)
    ensures
        r == infrastructure_error(e@),
{
    let t = crate::text::to_ascii_lower(e);
    let t = t.as_str();
    crate::text::contains_text(t, "http 500") || crate::text::contains_text(t, "http 502")
        || crate::text::contains_text(t, "http 503") || crate::text::contains_text(t, "http 504")
        || crate::text::contains_text(t, "http 408") || crate::text::contains_text(t, "timed out")
        || crate::text::contains_text(t, "timeout") || crate::text::contains_text(
        t,
        "error sending request",
    ) || crate::text::contains_text(t, "connection reset") || crate::text::contains_text(
        t,
        "connection refused",
    ) || crate::text::contains_text(t, "connect error")
}

/// Whether the error text `e` reports a quota or rate limit.
pub fn is_rate_limit_error(e: &str) -> (r: bool)
    ensures
        r == rate_limit_error(e@),
{
    let lower = crate::text::to_ascii_lower(e);
    crate::text::contains_text(e, "HTTP 429") || crate::text::contains_text(e, "RESOURCE_EXHAUSTED")
        || crate::text::contains_text(lower.as_str(), "rate limit")
}

// ---------------------------------------------------------------------------
// Circuit breaker
// ---------------------------------------------------------------------------

/// While open, requests skip Google AI and go to Cloudflare first.
#[derive(Debug, Clone, Copy)]
pub struct GoogleCircuit {
    /// Unix second until which Google AI is bypassed.
    pub unhealthy_until: i64,
}

impl GoogleCircuit {
    /// A closed circuit.
    pub fn new() -> (c: GoogleCircuit)
        ensures
            c.unhealthy_until == 0,
    {
        GoogleCircuit { unhealthy_until: 0 }
    }

    /// Whether Google AI is bypassed at the Unix second `now`.
    pub fn is_open(&self, now: i64) -> (r: bool)
        ensures
            r == (now < self.unhealthy_until),
    {
        now < self.unhealthy_until
    }

    /// Opens the circuit for ten minutes from `now` after an infrastructure error.
    pub fn mark_unhealthy(&mut self, now: i64)
        ensures
            final(self).unhealthy_until == opened_until(now),
    {
        self.unhealthy_until = if now <= i64::MAX - GOOGLE_CIRCUIT_SECONDS {
            now + GOOGLE_CIRCUIT_SECONDS
        } else {
            i64::MAX
        };
    }

    /// Closes the circuit after Google AI answered.
    pub fn clear(&mut self)
        ensures
            final(self).unhealthy_until == 0,
    {
        self.unhealthy_until = 0;
    }
}

/// The second until which the circuit stays open when it is opened at `t`.
pub open spec fn opened_until(t: i64) -> int {
    if t <= i64::MAX - GOOGLE_CIRCUIT_SECONDS {
        t + GOOGLE_CIRCUIT_SECONDS
    } else {
        i64::MAX as int
    }
}

/// Law: once opened at `t`, the circuit stays open for the following ten
/// minutes and is closed again from `t + 600` on (unless that time is beyond
/// the clock's range); a cleared circuit is closed at every time from the
/// epoch on.
pub proof fn law_circuit_breaker(t: i64, later: i64)
    ensures
        t <= later < t + GOOGLE_CIRCUIT_SECONDS && t <= i64::MAX - GOOGLE_CIRCUIT_SECONDS ==> later
            < opened_until(t),
        t <= i64::MAX - GOOGLE_CIRCUIT_SECONDS && later >= t + GOOGLE_CIRCUIT_SECONDS ==> !(later
            < opened_until(t)),
        later >= 0 ==> !(later < 0),
{
}

// ---------------------------------------------------------------------------
// Joining error messages
// ---------------------------------------------------------------------------

/// `parts` joined with `sep` between neighbours.
pub open spec fn join(parts: Seq<Seq<char>>, sep: Seq<char>) -> Seq<char>
    decreases parts.len(),
{
    if parts.len() == 0 {
        seq![]
    } else if parts.len() == 1 {
        parts[0]
    } else {
        join(parts.drop_last(), sep) + sep + parts.last()
    }
}

/// The texts of a list of strings.
pub open spec fn texts(v: Seq<String>) -> Seq<Seq<char>> {
    v.map_values(|s: String| s@)
}

/// The strings of `v` joined with `sep`.
pub fn join_strings(v: &Vec<String>, sep: &str) -> (r: String)
    ensures
        r@ == join(texts(v@), sep@),
{
    let mut out: Vec<char> = Vec::new();
    let mut i: usize = 0;
    while i < v.len()
        invariant
            i <= v.len(),
            out@ == join(texts(v@).take(i as int), sep@),
        decreases v.len() - i,
    {
        if i > 0 {
            crate::text::extend_str(&mut out, sep);
        }
        crate::text::extend_str(&mut out, v[i].as_str());
        i += 1;
        assert(texts(v@).take(i as int).drop_last() =~= texts(v@).take(i - 1));
        if i == 1 {
            assert(texts(v@).take(1) =~= seq![v@[0]@]);
        }
    }
    assert(texts(v@).take(v.len() as int) =~= texts(v@));
    crate::text::string_of(&out)
}

// ---------------------------------------------------------------------------
// Fallback chains
// ---------------------------------------------------------------------------

/// A provider to ask: one of the chain's Google models (by position), or
/// Cloudflare Workers AI.
#[derive(Debug, Clone, Copy)]
pub enum Provider {
    Google(usize),
    Cloudflare,
}

/// What the caller does next in a fallback chain.
#[derive(Debug, Clone)]
pub enum Step {
    /// Ask this provider and report its outcome.
    Call(Provider),
    /// The provider just asked answered; use its answer.
    Succeed,
    /// Give up with this error.
    Fail(String),
}

/// The call whose outcome a chain waits for.
#[derive(Debug, Clone, Copy, PartialEq, Eq, Structural)]
pub enum Awaiting {
    Nothing,
    Google,
    Cloudflare,
    /// A Cloudflare call made before any Google model because the circuit
    /// was open (chat only).
    CloudflareFirst,
}

/// The observation chain: the three configured observer models in order,
/// with at most one detour to Cloudflare, taken first while the circuit is
/// open, after the first Google failure that is an infrastructure error or
/// a rate limit, or else after the last model failed.
#[derive(Debug, Clone)]
pub struct ObservationFallback {
    pub models: Vec<String>,
    pub cloudflare: bool,
    pub tried_google: usize,
    pub cloudflare_tried: bool,
    pub awaiting: Awaiting,
    pub errors: Vec<String>,
}

/// The message recorded when an observer model fails.
pub open spec fn observer_failure(model: Seq<char>, e: Seq<char>) -> Seq<char> {
    "observation model "@ + model + " failed: "@ + e
}

/// The message recorded when Cloudflare fails to observe.
pub open spec fn observer_cloudflare_failure(e: Seq<char>) -> Seq<char> {
    "Cloudflare observation fallback failed: "@ + e
}

/// The error of an observation chain that ran out of providers.
pub open spec fn observation_exhausted(errors: Seq<String>) -> Seq<char> {
    "all observation models failed: "@ + join(texts(errors), " | "@)
}

/// `s` is the observation chain's step after a failure that moves on, with
/// `tried` observer models asked so far: the next observer model; else
/// Cloudflare if it is configured and not yet asked; else giving up with
/// every recorded error.
pub open spec fn observation_next(s: Step, tried: usize, cloudflare: bool, cloudflare_tried: bool, errors: Seq<String>) -> bool {
    if tried < 3 {
        s == Step::Call(Provider::Google(tried))
    } else if cloudflare && !cloudflare_tried {
        s == Step::Call(Provider::Cloudflare)
    } else {
        s matches Step::Fail(m) && m@ == observation_exhausted(errors)
    }
}

impl ObservationFallback {
    /// The chain is consistent.
    pub open spec fn wf(&self) -> bool {
        &&& self.models@.len() == 3
        &&& self.tried_google <= 3
        &&& self.awaiting == Awaiting::Google ==> self.tried_google >= 1
        &&& self.awaiting == Awaiting::Cloudflare ==> self.cloudflare_tried
        &&& self.awaiting != Awaiting::CloudflareFirst
        &&& self.cloudflare_tried ==> self.cloudflare
    }

    /// A bound on the calls the chain can still make; every call lowers it.
    pub open spec fn potential(&self) -> int {
        2 * (3 - self.tried_google) + (match self.awaiting {
            Awaiting::Google => 2int,
            Awaiting::Nothing => 2int,
            _ => 1int,
        }) + (if self.cloudflare_tried {
            0int
        } else {
            1int
        })
    }

    /// Starts the chain for `cfg`; `circuit_open` says whether Google AI is
    /// bypassed now.
    pub fn start(cfg: &AppConfig, circuit_open: bool) -> (r: (ObservationFallback, Step))
        ensures
            r.0.wf(),
            r.0.models@.len() == 3,
            r.0.models@[0] == cfg.observer_primary_model,
            r.0.models@[1] == cfg.observer_fallback_model,
            r.0.models@[2] == cfg.observer_last_fallback_model,
            r.0.cloudflare == cloudflare_ready(*cfg),
            r.0.errors@.len() == 0,
            r.1 == (if circuit_open && cloudflare_ready(*cfg) {
                Step::Call(Provider::Cloudflare)
            } else {
                Step::Call(Provider::Google(0))
            }),
            r.0.potential() <= 8,
            r.0.awaiting != Awaiting::Nothing,
            r.0.cloudflare_tried == (circuit_open && cloudflare_ready(*cfg)),
            r.0.tried_google == (if circuit_open && cloudflare_ready(*cfg) {
                0usize
            } else {
                1usize
            }),
            r.0.awaiting == (if circuit_open && cloudflare_ready(*cfg) {
                Awaiting::Cloudflare
            } else {
                Awaiting::Google
            }),
    {
        let mut models: Vec<String> = Vec::new();
        models.push(cfg.observer_primary_model.clone());
        models.push(cfg.observer_fallback_model.clone());
        models.push(cfg.observer_last_fallback_model.clone());
        let cloudflare = cloudflare_configured(cfg);
        let mut chain = ObservationFallback {
            models,
            cloudflare,
            tried_google: 0,
            cloudflare_tried: false,
            awaiting: Awaiting::Nothing,
            errors: Vec::new(),
        };
        if circuit_open && cloudflare {
            chain.cloudflare_tried = true;
            chain.awaiting = Awaiting::Cloudflare;
            (chain, Step::Call(Provider::Cloudflare))
        } else {
            chain.tried_google = 1;
            chain.awaiting = Awaiting::Google;
            (chain, Step::Call(Provider::Google(0)))
        }
    }

    /// After a failure: the next Google model, else Cloudflare if it was not
    /// asked yet, else give up.
    fn advance(&mut self) -> (s: Step)
        requires
            old(self).wf(),
        ensures
            final(self).wf(),
            final(self).models == old(self).models,
            final(self).cloudflare == old(self).cloudflare,
            final(self).errors == old(self).errors,
            old(self).tried_google < 3 ==> s == Step::Call(Provider::Google(old(self).tried_google)),
            old(self).tried_google == 3 && old(self).cloudflare && !old(self).cloudflare_tried ==> s
                == Step::Call(Provider::Cloudflare),
            old(self).tried_google == 3 && !(old(self).cloudflare && !old(self).cloudflare_tried)
                ==> s is Fail,
            s matches Step::Call(Provider::Google(k)) ==> k == old(self).tried_google
                && final(self).tried_google == k + 1 && final(self).awaiting == Awaiting::Google
                && final(self).cloudflare_tried == old(self).cloudflare_tried,
            s matches Step::Call(Provider::Cloudflare) ==> final(self).cloudflare_tried
                && final(self).tried_google == old(self).tried_google && final(self).awaiting
                == Awaiting::Cloudflare,
            s matches Step::Fail(m) ==> m@ == observation_exhausted(old(self).errors@)
                && final(self).tried_google == 3 && final(self).awaiting == Awaiting::Nothing
                && (old(self).cloudflare ==> old(self).cloudflare_tried)
                && final(self).cloudflare_tried == old(self).cloudflare_tried,
    {
        if self.tried_google < 3 {
            let k = self.tried_google;
            self.tried_google = k + 1;
            self.awaiting = Awaiting::Google;
            Step::Call(Provider::Google(k))
        } else if self.cloudflare && !self.cloudflare_tried {
            self.cloudflare_tried = true;
            self.awaiting = Awaiting::Cloudflare;
            Step::Call(Provider::Cloudflare)
        } else {
            self.awaiting = Awaiting::Nothing;
            let joined = join_strings(&self.errors, " | ");
            Step::Fail(crate::text::concat_str("all observation models failed: ", joined.as_str()))
        }
    }

    /// Reports the outcome of the pending call: `None` for an answer,
    /// `Some(e)` with the error's text for a failure. Returns the next step
    /// and, after a Google infrastructure failure, the message with which
    /// the circuit is to be opened.
    pub fn report(&mut self, failure: Option<&str>) -> (r: (Step, Option<String>))
        requires
            old(self).wf(),
            old(self).awaiting != Awaiting::Nothing,
        ensures
            final(self).wf(),
            final(self).models == old(self).models,
            final(self).cloudflare == old(self).cloudflare,
            failure is None ==> r.0 == Step::Succeed && r.1 is None && final(self).awaiting
                == Awaiting::Nothing,
            r.0 matches Step::Call(Provider::Google(k)) ==> k == old(self).tried_google
                && final(self).tried_google == k + 1,
            r.0 matches Step::Call(Provider::Cloudflare) ==> !old(self).cloudflare_tried
                && final(self).cloudflare_tried && old(self).cloudflare && final(self).tried_google
                == old(self).tried_google && final(self).awaiting == Awaiting::Cloudflare,
            r.0 matches Step::Call(Provider::Google(_)) ==> final(self).awaiting == Awaiting::Google,
            old(self).cloudflare_tried ==> final(self).cloudflare_tried,
            old(self).tried_google <= final(self).tried_google,
            r.0 is Call ==> final(self).potential() < old(self).potential(),
            r.0 matches Step::Fail(m) ==> final(self).tried_google == 3
                && (final(self).cloudflare ==> final(self).cloudflare_tried)
                && m@ == observation_exhausted(final(self).errors@),
            match failure {
                Some(e) => match old(self).awaiting {
                    Awaiting::Google => {
                        let msg = observer_failure(
                            old(self).models@[old(self).tried_google - 1]@,
                            e@,
                        );
                        &&& texts(final(self).errors@) == texts(old(self).errors@).push(msg)
                        &&& r.1 matches Some(m) ==> m@ == msg
                        &&& (r.1 is Some) == infrastructure_error(e@)
                        &&& ((infrastructure_error(e@) || rate_limit_error(e@))
                            && old(self).cloudflare && !old(self).cloudflare_tried) ==> r.0
                            == Step::Call(Provider::Cloudflare)
                    },
                    _ => {
                        &&& texts(final(self).errors@) == texts(old(self).errors@).push(
                            observer_cloudflare_failure(e@),
                        )
                        &&& r.1 is None
                    },
                },
                None => true,
            },
            failure is Some ==> r.0 != Step::Succeed,
            r.0 is Call ==> final(self).awaiting != Awaiting::Nothing,
            match failure {
                Some(e) => if old(self).awaiting == Awaiting::Google && (infrastructure_error(e@)
                    || rate_limit_error(e@)) && old(self).cloudflare && !old(self).cloudflare_tried {
                    r.0 == Step::Call(Provider::Cloudflare)
                } else {
                    observation_next(
                        r.0,
                        old(self).tried_google,
                        old(self).cloudflare,
                        old(self).cloudflare_tried,
                        final(self).errors@,
                    )
                },
                None => true,
            },
    {
        let e = match failure {
            None => {
                self.awaiting = Awaiting::Nothing;
                return (Step::Succeed, None);
            },
            Some(e) => e,
        };
        let ghost before = *self;
        if self.awaiting == Awaiting::Google {
            let model = &self.models[self.tried_google - 1];
            let msg = observer_failure_text(model.as_str(), e);
            let infrastructure = is_google_infrastructure_error(e);
            let rate_limited = is_rate_limit_error(e);
            let mark = if infrastructure {
                Some(msg.clone())
            } else {
                None
            };
            self.errors.push(msg);
            assert(texts(self.errors@) =~= texts(before.errors@).push(
                observer_failure(before.models@[before.tried_google - 1]@, e@),
            ));
            if (infrastructure || rate_limited) && self.cloudflare && !self.cloudflare_tried {
                self.cloudflare_tried = true;
                self.awaiting = Awaiting::Cloudflare;
                return (Step::Call(Provider::Cloudflare), mark);
            }
            let s = self.advance();
            (s, mark)
        } else {
            let msg = crate::text::concat_str("Cloudflare observation fallback failed: ", e);
            self.errors.push(msg);
            assert(texts(self.errors@) =~= texts(before.errors@).push(
                observer_cloudflare_failure(e@),
            ));
            let s = self.advance();
            (s, None)
        }
    }
}

/// The text recorded when an observer model fails.
fn observer_failure_text(model: &str, e: &str) -> (s: String)
    ensures
        s@ == observer_failure(model@, e@),
{
    let mut v: Vec<char> = Vec::new();
    crate::text::extend_str(&mut v, "observation model ");
    crate::text::extend_str(&mut v, model);
    crate::text::extend_str(&mut v, " failed: ");
    crate::text::extend_str(&mut v, e);
    crate::text::string_of(&v)
}


/// The chat models in the order they are asked: the fast light model first,
/// the larger ones only when a quota runs out.
pub open spec fn chat_model_name(i: int) -> Seq<char> {
    if i == 0 {
        "gemini-3.5-flash-lite"@
    } else if i == 1 {
        "gemini-3.7-flash"@
    } else if i == 2 {
        "gemini-3.6-flash"@
    } else if i == 3 {
        "gemini-3.5-flash"@
    } else {
        "gemini-3.1-flash-lite"@
    }
}

/// The number of chat models.
pub const CHAT_MODEL_COUNT: usize = 5;

/// The chat model at position `i`.
pub fn chat_model(i: usize) -> (m: &'static str)
    requires
        i < CHAT_MODEL_COUNT,
    ensures
        m@ == chat_model_name(i as int),
{
    if i == 0 {
        "gemini-3.5-flash-lite"
    } else if i == 1 {
        "gemini-3.7-flash"
    } else if i == 2 {
        "gemini-3.6-flash"
    } else if i == 3 {
        "gemini-3.5-flash"
    } else {
        "gemini-3.1-flash-lite"
    }
}

/// The chat chain (used for conversation and proactive messages): while the
/// circuit is open Cloudflare is asked first; then the chat models in order.
/// A rate limit moves to the next model; an infrastructure failure opens the
/// circuit and hands the request to Cloudflare instead of walking on through
/// the models (where Cloudflare is not configured, the next model is asked);
/// any other Google failure ends the chain with that error. Cloudflare is
/// asked at the end if the models ran out without it; a failure of a
/// Cloudflare fallback ends the chain with every recorded error.
#[derive(Debug, Clone)]
pub struct ChatFallback {
    pub cloudflare: bool,
    pub tried_google: usize,
    pub cloudflare_tried: bool,
    pub awaiting: Awaiting,
    pub errors: Vec<String>,
}

/// The message recorded when a chat model is rate limited.
pub open spec fn chat_rate_limited(model: Seq<char>, e: Seq<char>) -> Seq<char> {
    "chat model "@ + model + " rate-limited: "@ + e
}

/// The message recorded when a chat model fails for infrastructure reasons.
pub open spec fn chat_infrastructure_failure(model: Seq<char>, e: Seq<char>) -> Seq<char> {
    "chat model "@ + model + " infrastructure failure: "@ + e
}

/// The message recorded when Cloudflare fails to chat.
pub open spec fn chat_cloudflare_failure(e: Seq<char>) -> Seq<char> {
    "Cloudflare chat fallback failed: "@ + e
}

/// The error of a chat chain that ran out of providers.
pub open spec fn chat_exhausted(errors: Seq<String>) -> Seq<char> {
    "all chat providers failed: "@ + join(texts(errors), " | "@)
}

fn three_part_text(a: &str, b: &str, c: &str, d: &str) -> (s: String)
    ensures
        s@ == a@ + b@ + c@ + d@,
{
    let mut v: Vec<char> = Vec::new();
    crate::text::extend_str(&mut v, a);
    crate::text::extend_str(&mut v, b);
    crate::text::extend_str(&mut v, c);
    crate::text::extend_str(&mut v, d);
    crate::text::string_of(&v)
}

/// `s` is the chat chain's step after a failure that moves on, with `tried`
/// chat models asked so far: the next chat model; else Cloudflare if it is
/// configured and not yet asked after a failure; else giving up with every
/// recorded error.
pub open spec fn chat_next(s: Step, tried: usize, cloudflare: bool, cloudflare_tried: bool, errors: Seq<String>) -> bool {
    if tried < 5 {
        s == Step::Call(Provider::Google(tried))
    } else if cloudflare && !cloudflare_tried {
        s == Step::Call(Provider::Cloudflare)
    } else {
        s matches Step::Fail(m) && m@ == chat_exhausted(errors)
    }
}

impl ChatFallback {
    /// The chain is consistent.
    pub open spec fn wf(&self) -> bool {
        &&& self.tried_google <= 5
        &&& self.awaiting == Awaiting::Google ==> self.tried_google >= 1
        &&& self.awaiting == Awaiting::CloudflareFirst ==> self.tried_google == 0
            && !self.cloudflare_tried && self.cloudflare
        &&& self.awaiting == Awaiting::Cloudflare ==> self.cloudflare_tried
        &&& self.cloudflare_tried ==> self.cloudflare
    }

    /// A bound on the calls the chain can still make; every call lowers it.
    pub open spec fn potential(&self) -> int {
        2 * (5 - self.tried_google) + (match self.awaiting {
            Awaiting::Google => 2int,
            Awaiting::Nothing => 2int,
            _ => 1int,
        }) + (if self.cloudflare_tried {
            0int
        } else {
            1int
        })
    }

    /// Starts the chain for `cfg`; `circuit_open` says whether Google AI is
    /// bypassed now.
    pub fn start(cfg: &AppConfig, circuit_open: bool) -> (r: (ChatFallback, Step))
        ensures
            r.0.wf(),
            r.0.cloudflare == cloudflare_ready(*cfg),
            r.0.errors@.len() == 0,
            r.1 == (if circuit_open && cloudflare_ready(*cfg) {
                Step::Call(Provider::Cloudflare)
            } else {
                Step::Call(Provider::Google(0))
            }),
            r.0.potential() <= 12,
            r.0.awaiting != Awaiting::Nothing,
            !r.0.cloudflare_tried,
            r.0.tried_google == (if circuit_open && cloudflare_ready(*cfg) {
                0usize
            } else {
                1usize
            }),
            r.0.awaiting == (if circuit_open && cloudflare_ready(*cfg) {
                Awaiting::CloudflareFirst
            } else {
                Awaiting::Google
            }),
    {
        let cloudflare = cloudflare_configured(cfg);
        if circuit_open && cloudflare {
            (
                ChatFallback {
                    cloudflare,
                    tried_google: 0,
                    cloudflare_tried: false,
                    awaiting: Awaiting::CloudflareFirst,
                    errors: Vec::new(),
                },
                Step::Call(Provider::Cloudflare),
            )
        } else {
            (
                ChatFallback {
                    cloudflare,
                    tried_google: 1,
                    cloudflare_tried: false,
                    awaiting: Awaiting::Google,
                    errors: Vec::new(),
                },
                Step::Call(Provider::Google(0)),
            )
        }
    }

    /// After a failure: the next chat model, else Cloudflare if it was not
    /// asked after a failure yet, else give up.
    fn advance(&mut self) -> (s: Step)
        requires
            old(self).wf(),
            old(self).awaiting != Awaiting::CloudflareFirst || old(self).tried_google == 0,
        ensures
            final(self).wf(),
            final(self).cloudflare == old(self).cloudflare,
            final(self).errors == old(self).errors,
            old(self).tried_google < 5 ==> s == Step::Call(Provider::Google(old(self).tried_google))
                && final(self).tried_google == old(self).tried_google + 1 && final(self).awaiting
                == Awaiting::Google && final(self).cloudflare_tried == old(self).cloudflare_tried,
            old(self).tried_google == 5 && old(self).cloudflare && !old(self).cloudflare_tried ==> s
                == Step::Call(Provider::Cloudflare) && final(self).cloudflare_tried
                && final(self).tried_google == 5 && final(self).awaiting == Awaiting::Cloudflare,
            old(self).tried_google == 5 && !(old(self).cloudflare && !old(self).cloudflare_tried)
                ==> (s matches Step::Fail(m) && m@ == chat_exhausted(old(self).errors@))
                && final(self).awaiting == Awaiting::Nothing && final(self).tried_google == 5
                && final(self).cloudflare_tried == old(self).cloudflare_tried,
    {
        if self.tried_google < CHAT_MODEL_COUNT {
            let k = self.tried_google;
            self.tried_google = k + 1;
            self.awaiting = Awaiting::Google;
            Step::Call(Provider::Google(k))
        } else if self.cloudflare && !self.cloudflare_tried {
            self.cloudflare_tried = true;
            self.awaiting = Awaiting::Cloudflare;
            Step::Call(Provider::Cloudflare)
        } else {
            self.awaiting = Awaiting::Nothing;
            let joined = join_strings(&self.errors, " | ");
            Step::Fail(crate::text::concat_str("all chat providers failed: ", joined.as_str()))
        }
    }

    /// Reports the outcome of the pending call: `None` for an answer,
    /// `Some(e)` with the error's text for a failure. Returns the next step
    /// and, after a Google infrastructure failure, the message with which
    /// the circuit is to be opened.
    pub fn report(&mut self, failure: Option<&str>) -> (r: (Step, Option<String>))
        requires
            old(self).wf(),
            old(self).awaiting != Awaiting::Nothing,
        ensures
            final(self).wf(),
            final(self).cloudflare == old(self).cloudflare,
            failure is None ==> r.0 == Step::Succeed && r.1 is None && final(self).awaiting
                == Awaiting::Nothing,
            r.0 matches Step::Call(Provider::Google(k)) ==> k == old(self).tried_google
                && final(self).tried_google == k + 1,
            r.0 matches Step::Call(Provider::Cloudflare) ==> old(self).cloudflare
                && final(self).tried_google == old(self).tried_google && final(self).awaiting
                == Awaiting::Cloudflare,
            r.0 matches Step::Call(Provider::Google(_)) ==> final(self).awaiting == Awaiting::Google,
            old(self).cloudflare_tried ==> final(self).cloudflare_tried,
            r.0 is Call ==> final(self).potential() < old(self).potential(),
            match failure {
                Some(e) => match old(self).awaiting {
                    Awaiting::Google => {
                        let model = chat_model_name(old(self).tried_google - 1);
                        if rate_limit_error(e@) {
                            &&& texts(final(self).errors@) == texts(old(self).errors@).push(
                                chat_rate_limited(model, e@),
                            )
                            &&& r.1 is None
                        } else if infrastructure_error(e@) {
                            &&& texts(final(self).errors@) == texts(old(self).errors@).push(
                                chat_infrastructure_failure(model, e@),
                            )
                            &&& r.1 matches Some(m) && m@ == chat_infrastructure_failure(model, e@)
                            &&& old(self).cloudflare ==> r.0 == Step::Call(Provider::Cloudflare)
                        } else {
                            &&& r.0 matches Step::Fail(m) && m@ == e@
                            &&& r.1 is None
                        }
                    },
                    Awaiting::CloudflareFirst => {
                        &&& final(self).errors == old(self).errors
                        &&& r.0 == Step::Call(Provider::Google(0))
                        &&& r.1 is None
                    },
                    _ => {
                        &&& texts(final(self).errors@) == texts(old(self).errors@).push(
                            chat_cloudflare_failure(e@),
                        )
                        &&& r.1 is None
                    },
                },
                None => true,
            },
            r.0 matches Step::Fail(m) ==> (failure matches Some(e) && m@ == e@) || m@
                == chat_exhausted(final(self).errors@),
            failure is Some ==> r.0 != Step::Succeed,
            r.0 is Call ==> final(self).awaiting != Awaiting::Nothing,
            match failure {
                Some(e) => match old(self).awaiting {
                    Awaiting::Google => if rate_limit_error(e@) || (infrastructure_error(e@)
                        && !old(self).cloudflare) {
                        chat_next(
                            r.0,
                            old(self).tried_google,
                            old(self).cloudflare,
                            old(self).cloudflare_tried,
                            final(self).errors@,
                        )
                    } else if infrastructure_error(e@) {
                        r.0 == Step::Call(Provider::Cloudflare)
                    } else {
                        r.0 matches Step::Fail(m) && m@ == e@
                    },
                    Awaiting::CloudflareFirst => r.0 == Step::Call(Provider::Google(0)),
                    _ => r.0 matches Step::Fail(m) && m@ == chat_exhausted(final(self).errors@),
                },
                None => true,
            },
    {
        let e = match failure {
            None => {
                self.awaiting = Awaiting::Nothing;
                return (Step::Succeed, None);
            },
            Some(e) => e,
        };
        let ghost before = *self;
        if self.awaiting == Awaiting::CloudflareFirst {
            let s = self.advance();
            return (s, None);
        }
        if self.awaiting == Awaiting::Google {
            let model = chat_model(self.tried_google - 1);
            if is_rate_limit_error(e) {
                let msg = three_part_text("chat model ", model, " rate-limited: ", e);
                self.errors.push(msg);
                assert(texts(self.errors@) =~= texts(before.errors@).push(
                    chat_rate_limited(model@, e@),
                ));
                let s = self.advance();
                return (s, None);
            }
            if is_google_infrastructure_error(e) {
                let msg = three_part_text("chat model ", model, " infrastructure failure: ", e);
                let mark = Some(msg.clone());
                self.errors.push(msg);
                assert(texts(self.errors@) =~= texts(before.errors@).push(
                    chat_infrastructure_failure(model@, e@),
                ));
                if self.cloudflare {
                    self.cloudflare_tried = true;
                    self.awaiting = Awaiting::Cloudflare;
                    return (Step::Call(Provider::Cloudflare), mark);
                }
                let s = self.advance();
                return (s, mark);
            }
            self.awaiting = Awaiting::Nothing;
            return (Step::Fail(e.to_owned()), None);
        }
        let msg = crate::text::concat_str("Cloudflare chat fallback failed: ", e);
        self.errors.push(msg);
        assert(texts(self.errors@) =~= texts(before.errors@).push(chat_cloudflare_failure(e@)));
        self.awaiting = Awaiting::Nothing;
        let joined = join_strings(&self.errors, " | ");
        (Step::Fail(crate::text::concat_str("all chat providers failed: ", joined.as_str())), None)
    }
}

/// The diary chain: while the circuit is open Cloudflare alone is asked;
/// otherwise the configured diary model, and Cloudflare once if that fails
/// with an infrastructure error or a rate limit. Any other failure, and any
/// failure of Cloudflare, ends the chain with that error.
#[derive(Debug, Clone)]
pub struct DiaryFallback {
    pub cloudflare: bool,
    pub awaiting: Awaiting,
}

impl DiaryFallback {
    /// Starts the chain for `cfg`; `circuit_open` says whether Google AI is
    /// bypassed now.
    pub fn start(cfg: &AppConfig, circuit_open: bool) -> (r: (DiaryFallback, Step))
        ensures
            r.0.cloudflare == cloudflare_ready(*cfg),
            r.0.awaiting != Awaiting::Nothing,
            r.1 == (if circuit_open && cloudflare_ready(*cfg) {
                Step::Call(Provider::Cloudflare)
            } else {
                Step::Call(Provider::Google(0))
            }),
            r.0.awaiting == (if circuit_open && cloudflare_ready(*cfg) {
                Awaiting::Cloudflare
            } else {
                Awaiting::Google
            }),
    {
        let cloudflare = cloudflare_configured(cfg);
        if circuit_open && cloudflare {
            (DiaryFallback { cloudflare, awaiting: Awaiting::Cloudflare }, Step::Call(Provider::Cloudflare))
        } else {
            (DiaryFallback { cloudflare, awaiting: Awaiting::Google }, Step::Call(Provider::Google(0)))
        }
    }

    /// Reports the outcome of the pending call, as for the other chains.
    pub fn report(&mut self, failure: Option<&str>) -> (r: (Step, Option<String>))
        requires
            old(self).awaiting != Awaiting::Nothing,
        ensures
            failure is None ==> r.0 == Step::Succeed && r.1 is None,
            match failure {
                Some(e) => if old(self).awaiting == Awaiting::Google && (infrastructure_error(e@)
                    || rate_limit_error(e@)) && old(self).cloudflare {
                    &&& r.0 == Step::Call(Provider::Cloudflare)
                    &&& final(self).awaiting == Awaiting::Cloudflare
                    &&& (r.1 is Some) == infrastructure_error(e@)
                    &&& r.1 matches Some(m) ==> m@ == "diary: "@ + e@
                } else {
                    &&& r.0 matches Step::Fail(m) && m@ == e@
                    &&& r.1 is None
                    &&& final(self).awaiting == Awaiting::Nothing
                },
                None => true,
            },
    {
        let e = match failure {
            None => {
                self.awaiting = Awaiting::Nothing;
                return (Step::Succeed, None);
            },
            Some(e) => e,
        };
        if self.awaiting == Awaiting::Google && self.cloudflare {
            let infrastructure = is_google_infrastructure_error(e);
            if infrastructure || is_rate_limit_error(e) {
                let mark = if infrastructure {
                    Some(crate::text::concat_str("diary: ", e))
                } else {
                    None
                };
                self.awaiting = Awaiting::Cloudflare;
                return (Step::Call(Provider::Cloudflare), mark);
            }
        }
        self.awaiting = Awaiting::Nothing;
        (Step::Fail(e.to_owned()), None)
    }
}

/// The Workers AI chat-completions address for the configured account.
pub fn cloudflare_url(cfg: &AppConfig) -> (u: String)
    ensures
        u@ == "https://api.cloudflare.com/client/v4/accounts/"@ + trim(cfg.cloudflare_account_id@)
            + "/ai/v1/chat/completions"@,
{
    let account = crate::text::trim_text(cfg.cloudflare_account_id.as_str());
    let mut v: Vec<char> = Vec::new();
    crate::text::extend_str(&mut v, "https://api.cloudflare.com/client/v4/accounts/");
    crate::text::extend_str(&mut v, account.as_str());
    crate::text::extend_str(&mut v, "/ai/v1/chat/completions");
    crate::text::string_of(&v)
}

/// The Google AI `generateContent` address of `model`.
pub fn gemini_url(model: &str) -> (u: String)
    ensures
        u@ == "https://generativelanguage.googleapis.com/v1beta/models/"@ + model@
            + ":generateContent"@,
{
    let mut v: Vec<char> = Vec::new();
    crate::text::extend_str(&mut v, "https://generativelanguage.googleapis.com/v1beta/models/");
    crate::text::extend_str(&mut v, model);
    crate::text::extend_str(&mut v, ":generateContent");
    crate::text::string_of(&v)
}

/// The user's chat input, trimmed; refused when nothing is left.
pub fn chat_input(text: &str) -> (r: Result<String, String>)
    ensures
        match r {
            Ok(t) => !is_blank(text@) && t@ == trim(text@),
            Err(e) => is_blank(text@) && e@ == "empty message"@,
        },
{
    let t = crate::text::trim_text(text);
    if t.as_str().is_empty() {
        Err("empty message".to_owned())
    } else {
        Ok(t)
    }
}

} // verus!
