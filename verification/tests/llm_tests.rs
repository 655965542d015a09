use yandere_companion::config::AppConfig;
use yandere_companion::llm::{
    chat_input, chat_model, cloudflare_configured, cloudflare_url, gemini_configured, gemini_url,
    is_google_infrastructure_error, is_rate_limit_error, join_strings, last_items_start,
    require_cloudflare, require_gemini, Awaiting, ChatFallback,
    DiaryFallback, GoogleCircuit, ObservationFallback, Provider, Step,
};

fn cf_config() -> AppConfig {
    let mut c = AppConfig::default();
    c.cloudflare_account_id = " acct ".into();
    c.cloudflare_api_token = "tok".into();
    c
}

fn is_call_google(s: &Step, k: usize) -> bool {
    matches!(s, Step::Call(Provider::Google(i)) if *i == k)
}

fn is_call_cloudflare(s: &Step) -> bool {
    matches!(s, Step::Call(Provider::Cloudflare))
}

#[test]
fn error_classes() {
    assert!(is_google_infrastructure_error("Google AI x: HTTP 503 Service Unavailable: overloaded"));
    assert!(is_google_infrastructure_error("observation request to m: operation Timed Out"));
    assert!(is_google_infrastructure_error("Gemini request: error sending request for url"));
    assert!(!is_google_infrastructure_error("Gemini API m: HTTP 400 Bad Request"));
    assert!(is_rate_limit_error("Gemini API m: HTTP 429 Too Many Requests"));
    assert!(is_rate_limit_error("status RESOURCE_EXHAUSTED"));
    assert!(is_rate_limit_error("Rate Limit reached"));
    assert!(!is_rate_limit_error("http 429 lower case is not the marker"));
    assert!(!is_rate_limit_error("resource_exhausted"));
}

#[test]
fn provider_configuration() {
    assert!(!cloudflare_configured(&AppConfig::default()));
    assert!(cloudflare_configured(&cf_config()));
    let mut c = cf_config();
    c.cloudflare_model = "  ".into();
    assert!(!cloudflare_configured(&c));
    assert!(!gemini_configured(&AppConfig::default()));
    assert_eq!(
        cloudflare_url(&cf_config()),
        "https://api.cloudflare.com/client/v4/accounts/acct/ai/v1/chat/completions"
    );
    assert_eq!(
        gemini_url("gemma-4-26b-a4b-it"),
        "https://generativelanguage.googleapis.com/v1beta/models/gemma-4-26b-a4b-it:generateContent"
    );
}

#[test]
fn circuit_opens_for_ten_minutes() {
    let mut c = GoogleCircuit::new();
    assert!(!c.is_open(1_000));
    c.mark_unhealthy(1_000);
    assert!(c.is_open(1_000));
    assert!(c.is_open(1_599));
    assert!(!c.is_open(1_600));
    c.clear();
    assert!(!c.is_open(1_000));
    c.mark_unhealthy(i64::MAX - 5);
    assert_eq!(c.unhealthy_until, i64::MAX);
}

#[test]
fn observation_chain_walks_the_models_in_order() {
    let cfg = AppConfig::default();
    let (mut chain, step) = ObservationFallback::start(&cfg, false);
    assert!(is_call_google(&step, 0));
    let (step, mark) = chain.report(Some("Google AI gemma-4-26b-a4b-it: HTTP 400: bad json"));
    assert!(is_call_google(&step, 1) && mark.is_none());
    let (step, mark) = chain.report(Some("HTTP 503 overloaded"));
    assert!(is_call_google(&step, 2));
    assert_eq!(mark.unwrap(), "observation model gemma-4-31b-it failed: HTTP 503 overloaded");
    let (step, _) = chain.report(Some("invalid JSON"));
    match step {
        Step::Fail(m) => assert_eq!(
            m,
            "all observation models failed: observation model gemma-4-26b-a4b-it failed: Google AI gemma-4-26b-a4b-it: HTTP 400: bad json | observation model gemma-4-31b-it failed: HTTP 503 overloaded | observation model gemini-3.1-flash-lite failed: invalid JSON"
        ),
        _ => panic!("expected failure"),
    }
}

#[test]
fn observation_chain_detours_to_cloudflare_once() {
    let cfg = cf_config();
    let (mut chain, step) = ObservationFallback::start(&cfg, false);
    assert!(is_call_google(&step, 0));
    let (step, mark) = chain.report(Some("HTTP 429 quota"));
    assert!(is_call_cloudflare(&step) && mark.is_none());
    let (step, _) = chain.report(Some("busy"));
    assert!(is_call_google(&step, 1));
    let (step, _) = chain.report(Some("HTTP 503"));
    assert!(is_call_google(&step, 2));
    let (step, _) = chain.report(None);
    assert!(matches!(step, Step::Succeed));
    assert_eq!(chain.awaiting, Awaiting::Nothing);
}

#[test]
fn observation_chain_tries_cloudflare_first_while_circuit_is_open_and_last_otherwise() {
    let cfg = cf_config();
    let (mut chain, step) = ObservationFallback::start(&cfg, true);
    assert!(is_call_cloudflare(&step));
    let (step, _) = chain.report(Some("cf down"));
    assert!(is_call_google(&step, 0));
    let (_, _) = chain.report(Some("HTTP 503"));
    let (_, _) = chain.report(Some("bad"));
    let (step, _) = chain.report(Some("bad"));
    assert!(matches!(step, Step::Fail(_)));

    let (mut chain, _) = ObservationFallback::start(&cfg, false);
    chain.report(Some("bad"));
    chain.report(Some("bad"));
    let (step, _) = chain.report(Some("bad"));
    assert!(is_call_cloudflare(&step));
    let (step, _) = chain.report(None);
    assert!(matches!(step, Step::Succeed));
}

#[test]
fn chat_chain_moves_on_rate_limits_and_stops_on_other_errors() {
    let cfg = AppConfig::default();
    let (mut chain, step) = ChatFallback::start(&cfg, false);
    assert!(is_call_google(&step, 0));
    assert_eq!(chat_model(0), "gemini-3.5-flash-lite");
    let (step, _) = chain.report(Some("HTTP 429"));
    assert!(is_call_google(&step, 1));
    assert_eq!(chat_model(1), "gemini-3.7-flash");
    let (step, _) = chain.report(Some("Gemini API gemini-3.7-flash: HTTP 400 Bad Request: nope"));
    match step {
        Step::Fail(m) => assert_eq!(m, "Gemini API gemini-3.7-flash: HTTP 400 Bad Request: nope"),
        _ => panic!("expected the error itself"),
    }
}

#[test]
fn chat_chain_reports_every_provider_when_all_fail() {
    let cfg = AppConfig::default();
    let (mut chain, _) = ChatFallback::start(&cfg, false);
    let mut last = None;
    for _ in 0..5 {
        let (step, mark) = chain.report(Some("HTTP 504 gateway"));
        assert!(mark.is_some());
        last = Some(step);
    }
    match last.unwrap() {
        Step::Fail(m) => {
            assert!(m.starts_with("all chat providers failed: chat model gemini-3.5-flash-lite infrastructure failure: HTTP 504 gateway | "));
            assert_eq!(m.matches(" | ").count(), 4);
            assert!(m.ends_with("chat model gemini-3.1-flash-lite infrastructure failure: HTTP 504 gateway"));
        }
        _ => panic!("expected failure"),
    }
}

#[test]
fn chat_chain_hands_infrastructure_failures_to_cloudflare() {
    let cfg = cf_config();
    let (mut chain, step) = ChatFallback::start(&cfg, true);
    assert!(is_call_cloudflare(&step));
    let (step, _) = chain.report(Some("cf busy"));
    assert!(is_call_google(&step, 0));
    assert!(chain.errors.is_empty());
    let (step, mark) = chain.report(Some("connection reset by peer"));
    assert!(is_call_cloudflare(&step));
    assert_eq!(mark.unwrap(), "chat model gemini-3.5-flash-lite infrastructure failure: connection reset by peer");
    let (step, _) = chain.report(Some("cf failed"));
    match step {
        Step::Fail(m) => assert_eq!(
            m,
            "all chat providers failed: chat model gemini-3.5-flash-lite infrastructure failure: connection reset by peer | Cloudflare chat fallback failed: cf failed"
        ),
        _ => panic!("no later chat model is asked after a failed Cloudflare fallback"),
    }
    let (mut chain, _) = ChatFallback::start(&cfg, false);
    let (step, _) = chain.report(Some("connect error"));
    assert!(is_call_cloudflare(&step));
    let (step, _) = chain.report(None);
    assert!(matches!(step, Step::Succeed));
}

#[test]
fn chat_chain_asks_cloudflare_last_after_rate_limits() {
    let cfg = cf_config();
    let (mut chain, _) = ChatFallback::start(&cfg, false);
    for k in 1..5 {
        let (step, _) = chain.report(Some("HTTP 429 Too Many Requests"));
        assert!(is_call_google(&step, k));
    }
    let (step, mark) = chain.report(Some("RESOURCE_EXHAUSTED"));
    assert!(is_call_cloudflare(&step) && mark.is_none());
    let (step, _) = chain.report(Some("cf down"));
    match step {
        Step::Fail(m) => {
            assert!(m.starts_with("all chat providers failed: chat model gemini-3.5-flash-lite rate-limited: "));
            assert!(m.ends_with(" | Cloudflare chat fallback failed: cf down"));
        }
        _ => panic!("expected failure"),
    }
}

#[test]
fn diary_chain() {
    let cfg = cf_config();
    let (mut d, step) = DiaryFallback::start(&cfg, false);
    assert!(is_call_google(&step, 0));
    assert_eq!(d.awaiting, Awaiting::Google);
    let (step, mark) = d.report(Some("HTTP 503"));
    assert!(is_call_cloudflare(&step));
    assert_eq!(mark.unwrap(), "diary: HTTP 503");
    let (step, _) = d.report(Some("cf error"));
    match step {
        Step::Fail(m) => assert_eq!(m, "cf error"),
        _ => panic!(),
    }
    let (mut d, _) = DiaryFallback::start(&cfg, false);
    let (step, mark) = d.report(Some("HTTP 429"));
    assert!(is_call_cloudflare(&step) && mark.is_none());
    let (mut d, _) = DiaryFallback::start(&AppConfig::default(), false);
    let (step, _) = d.report(Some("HTTP 503"));
    assert!(matches!(step, Step::Fail(_)));
    let (_, step) = DiaryFallback::start(&cfg, true);
    assert!(is_call_cloudflare(&step));
}

#[test]
fn chat_input_is_trimmed() {
    assert_eq!(chat_input("  やっほー \n").unwrap(), "やっほー");
    assert_eq!(chat_input(" \t ").unwrap_err(), "empty message");
}

#[test]
fn joins_with_separator() {
    assert_eq!(join_strings(&vec![], " | "), "");
    assert_eq!(join_strings(&vec!["a".to_string()], " | "), "a");
    assert_eq!(join_strings(&vec!["a".to_string(), "b".to_string()], " | "), "a | b");
}

#[test]
fn requests_need_their_provider_configured() {
    let cfg = AppConfig::default();
    assert_eq!(require_gemini(&cfg).unwrap_err(), "Gemini API key is not configured");
    assert_eq!(require_cloudflare(&cfg).unwrap_err(), "Cloudflare Workers AI is not configured");
    let mut cfg = cf_config();
    cfg.gemini_api_key = " key ".into();
    assert!(require_gemini(&cfg).is_ok());
    assert!(require_cloudflare(&cfg).is_ok());
    assert_eq!(last_items_start(10, 6), 4);
    assert_eq!(last_items_start(3, 6), 0);
    assert_eq!(last_items_start(6, 6), 0);
}
