use yandere_companion::json::{JsonNumber, JsonValue};
use yandere_companion::replies::{
    clean_observation_text, cloudflare_reply, extract_cloudflare_chat_text, extract_gemini_text,
    gemini_reply, observation_reply, outer_json_object, uses_thinking_config,
};

fn s(t: &str) -> JsonValue {
    JsonValue::Text(t.to_string())
}
fn arr(v: Vec<JsonValue>) -> JsonValue {
    JsonValue::Array(v)
}
fn obj(v: Vec<(&str, JsonValue)>) -> JsonValue {
    JsonValue::Object(v.into_iter().map(|(k, x)| (k.to_string(), x)).collect())
}
fn message(content: JsonValue) -> JsonValue {
    obj(vec![("choices", arr(vec![obj(vec![("message", obj(vec![("content", content)]))])]))])
}

#[test]
fn cloudflare_text_from_the_standard_shape() {
    assert_eq!(extract_cloudflare_chat_text(&message(s("  hello \n"))).unwrap(), "hello");
    let parts = arr(vec![obj(vec![("text", s("a"))]), obj(vec![("content", s("b"))]), obj(vec![("x", s("c"))])]);
    assert_eq!(extract_cloudflare_chat_text(&message(parts)).unwrap(), "ab");
}

#[test]
fn cloudflare_text_from_alternate_shapes() {
    let v = obj(vec![("result", obj(vec![("response", s(" wrapped "))]))]);
    assert_eq!(extract_cloudflare_chat_text(&v).unwrap(), "wrapped");
    let v = obj(vec![("response", s("top"))]);
    assert_eq!(extract_cloudflare_chat_text(&v).unwrap(), "top");
    // A blank standard answer falls through to the next shape.
    let v = obj(vec![
        ("choices", arr(vec![obj(vec![("message", obj(vec![("content", s("  "))]))])])),
        ("response", s("later")),
    ]);
    assert_eq!(extract_cloudflare_chat_text(&v).unwrap(), "later");
    assert!(extract_cloudflare_chat_text(&obj(vec![])).is_none());
}

#[test]
fn cloudflare_reply_errors() {
    let v = obj(vec![("success", JsonValue::Bool(false))]);
    assert_eq!(
        cloudflare_reply(&v, " {\"success\":false} ").unwrap_err(),
        "Cloudflare Workers AI returned failure: {\"success\":false}"
    );
    let v = obj(vec![(
        "choices",
        arr(vec![obj(vec![
            ("finish_reason", s("length")),
            ("message", obj(vec![("content", JsonValue::Null), ("reasoning_content", s("思考中"))])),
        ])]),
    )]);
    assert_eq!(
        cloudflare_reply(&v, "").unwrap_err(),
        "Cloudflare Workers AI returned no chat completion text (finish_reason=length, content=null, reasoning_chars=3)"
    );
    let v = message(s("  "));
    assert_eq!(
        cloudflare_reply(&v, "").unwrap_err(),
        "Cloudflare Workers AI returned no chat completion text (finish_reason=unknown, content=string(len=2), reasoning_chars=0)"
    );
    assert_eq!(cloudflare_reply(&message(s("ok")), "").unwrap(), "ok");
}

fn gemini(parts: Vec<JsonValue>) -> JsonValue {
    obj(vec![("candidates", arr(vec![obj(vec![("content", obj(vec![("parts", arr(parts))]))])]))])
}

#[test]
fn gemini_text_skips_thoughts() {
    let v = gemini(vec![
        obj(vec![("text", s("thinking...")), ("thought", JsonValue::Bool(true))]),
        obj(vec![("text", s(" Hello"))]),
        obj(vec![("text", s(" there "))]),
    ]);
    assert_eq!(extract_gemini_text(&v).unwrap(), "Hello there");
    let v = gemini(vec![obj(vec![("text", s(" only thought ")), ("thought", JsonValue::Bool(true))])]);
    assert_eq!(extract_gemini_text(&v).unwrap(), "only thought");
    let v = gemini(vec![obj(vec![("text", s("  "))])]);
    assert!(extract_gemini_text(&v).is_none());
}

#[test]
fn gemini_reply_errors() {
    let v = obj(vec![
        ("candidates", arr(vec![obj(vec![("finishReason", s("SAFETY"))])])),
        ("promptFeedback", obj(vec![("blockReason", s("OTHER"))])),
    ]);
    assert_eq!(
        gemini_reply(&v, "gemini-3.5-flash-lite").unwrap_err(),
        "Gemini gemini-3.5-flash-lite returned no text (finishReason=SAFETY, blockReason=OTHER)"
    );
    assert_eq!(
        observation_reply(&obj(vec![]), "gemma-4-31b-it").unwrap_err(),
        "Google AI gemma-4-31b-it returned no text (finishReason=unknown)"
    );
    let ok = gemini(vec![obj(vec![("text", s("{}"))])]);
    assert_eq!(gemini_reply(&ok, "m").unwrap(), "{}");
    let _ = JsonValue::Number(JsonNumber::PosInt(1));
}

#[test]
fn observation_text_cleaning() {
    assert_eq!(clean_observation_text("```json\n{\"a\":1}\n```"), "{\"a\":1}");
    assert_eq!(clean_observation_text("```\n{\"a\":1}```  "), "{\"a\":1}");
    assert_eq!(clean_observation_text("  {\"a\":1} "), "{\"a\":1}");
    assert_eq!(outer_json_object("Sure! {\"a\":{\"b\":1}} done").unwrap(), "{\"a\":{\"b\":1}}");
    assert!(outer_json_object("} no {").is_none());
    assert!(outer_json_object("none").is_none());
}

#[test]
fn gemma_models_use_thinking_config() {
    assert!(uses_thinking_config("gemma-4-26b-a4b-it"));
    assert!(!uses_thinking_config("gemini-3.1-flash-lite"));
}
