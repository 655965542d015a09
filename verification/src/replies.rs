//! Reading the text out of the models' replies, and the observation JSON out
//! of the text.

use vstd::prelude::*;
use crate::json::{JsonValue, as_str, as_bool, get, pointer, tokens_view, deref_opt};
use crate::text::{is_blank, trim, starts_with, ends_with, find_first, find_last};

verus! {

/// The text of an optional string value.
pub open spec fn opt_str(v: Option<JsonValue>) -> Option<Seq<char>> {
    match v {
        Some(x) => as_str(x),
        None => None,
    }
}

/// The truth value of an optional boolean.
pub open spec fn opt_bool(v: Option<JsonValue>) -> Option<bool> {
    match v {
        Some(x) => as_bool(x),
        None => None,
    }
}

// ---------------------------------------------------------------------------
// Cloudflare Workers AI
// ---------------------------------------------------------------------------

/// The text of one content part: its `text` string, else its `content` string.
pub open spec fn part_text(part: JsonValue) -> Option<Seq<char>> {
    match opt_str(get(part, "text"@)) {
        Some(t) => Some(t),
        None => opt_str(get(part, "content"@)),
    }
}

/// The texts of the parts, concatenated; parts without one are skipped.
pub open spec fn concat_part_texts(parts: Seq<JsonValue>) -> Seq<char>
    decreases parts.len(),
{
    if parts.len() == 0 {
        seq![]
    } else {
        concat_part_texts(parts.drop_last()) + match part_text(parts.last()) {
            Some(t) => t,
            None => seq![],
        }
    }
}

/// The answer held by a message content: a non-blank string, or an array of
/// parts whose texts together are not blank; trimmed.
pub open spec fn content_answer(c: JsonValue) -> Option<Seq<char>> {
    match c {
        JsonValue::Text(s) => if !is_blank(s@) {
            Some(trim(s@))
        } else {
            None
        },
        JsonValue::Array(items) => if !is_blank(concat_part_texts(items@)) {
            Some(trim(concat_part_texts(items@)))
        } else {
            None
        },
        _ => None,
    }
}

/// Where a Workers AI reply may hold the answer, in the order looked at.
pub open spec fn cloudflare_answer_path(i: int) -> Seq<Seq<char>> {
    if i == 0 {
        seq!["choices"@, "0"@, "message"@, "content"@]
    } else if i == 1 {
        seq!["result"@, "choices"@, "0"@, "message"@, "content"@]
    } else if i == 2 {
        seq!["result"@, "response"@]
    } else {
        seq!["response"@]
    }
}

/// The first answer found along the paths from the `i`-th on.
pub open spec fn cloudflare_answer_from(v: JsonValue, i: int) -> Option<Seq<char>>
    decreases 4 - i,
{
    if i >= 4 || i < 0 {
        None
    } else {
        match pointer(v, cloudflare_answer_path(i)) {
            Some(c) => match content_answer(c) {
                Some(t) => Some(t),
                None => cloudflare_answer_from(v, i + 1),
            },
            None => cloudflare_answer_from(v, i + 1),
        }
    }
}

/// The answer of a Workers AI chat-completion reply.
pub open spec fn cloudflare_answer(v: JsonValue) -> Option<Seq<char>> {
    cloudflare_answer_from(v, 0)
}

fn part_text_of<'a>(part: &'a JsonValue) -> (r: Option<&'a String>)
    ensures
        match r {
            Some(s) => part_text(*part) == Some(s@),
            None => part_text(*part) is None,
        },
{
    let t = match crate::json::member(part, "text") {
        Some(x) => crate::json::string_value(x),
        None => None,
    };
    match t {
        Some(s) => Some(s),
        None => match crate::json::member(part, "content") {
            Some(x) => crate::json::string_value(x),
            None => None,
        },
    }
}

fn content_answer_of(c: &JsonValue) -> (r: Option<String>)
    ensures
        match r {
            Some(s) => content_answer(*c) == Some(s@),
            None => content_answer(*c) is None,
        },
{
    match c {
        JsonValue::Text(s) => if !crate::text::is_blank_text(s.as_str()) {
            Some(crate::text::trim_text(s.as_str()))
        } else {
            None
        },
        JsonValue::Array(items) => {
            let mut out: Vec<char> = Vec::new();
            let mut i: usize = 0;
            while i < items.len()
                invariant
                    i <= items@.len(),
                    out@ == concat_part_texts(items@.take(i as int)),
                decreases items.len() - i,
            {
                let ghost before = out@;
                if let Some(t) = part_text_of(&items[i]) {
                    crate::text::extend_str(&mut out, t.as_str());
                }
                i += 1;
                assert(items@.take(i as int).drop_last() =~= items@.take(i - 1));
            }
            assert(items@.take(items.len() as int) =~= items@);
            let joined = crate::text::string_of(&out);
            if !crate::text::is_blank_text(joined.as_str()) {
                Some(crate::text::trim_text(joined.as_str()))
            } else {
                None
            }
        },
        _ => None,
    }
}

fn cloudflare_path<'a>(v: &'a JsonValue, i: usize) -> (r: Option<&'a JsonValue>)
    requires
        i < 4,
    ensures
        deref_opt(r) == pointer(*v, cloudflare_answer_path(i as int)),
{
    if i == 0 {
        let p = ["choices", "0", "message", "content"];
        assert(tokens_view(p@) =~= cloudflare_answer_path(0));
        crate::json::pointer_lookup(v, &p)
    } else if i == 1 {
        let p = ["result", "choices", "0", "message", "content"];
        assert(tokens_view(p@) =~= cloudflare_answer_path(1));
        crate::json::pointer_lookup(v, &p)
    } else if i == 2 {
        let p = ["result", "response"];
        assert(tokens_view(p@) =~= cloudflare_answer_path(2));
        crate::json::pointer_lookup(v, &p)
    } else {
        let p = ["response"];
        assert(tokens_view(p@) =~= cloudflare_answer_path(3));
        crate::json::pointer_lookup(v, &p)
    }
}

/// The answer of a Workers AI chat-completion reply, trimmed.
pub fn extract_cloudflare_chat_text(v: &JsonValue) -> (r: Option<String>)
    ensures
        match r {
            Some(s) => cloudflare_answer(*v) == Some(s@),
            None => cloudflare_answer(*v) is None,
        },
{
    let mut i: usize = 0;
    while i < 4
        invariant
            i <= 4,
            cloudflare_answer(*v) == cloudflare_answer_from(*v, i as int),
        decreases 4 - i,
    {
        if let Some(c) = cloudflare_path(v, i) {
            if let Some(t) = content_answer_of(c) {
                return Some(t);
            }
        }
        i += 1;
    }
    None
}

/// The number of characters of a count.
fn decimal_of(n: usize) -> (s: String)
    ensures
        s@ == crate::text::decimal(n as nat),
{
    crate::text::decimal_text(n as u64)
}

/// How the first choice's message content looks, for diagnostics.
pub open spec fn content_shape(c: Option<JsonValue>) -> Seq<char> {
    match c {
        Some(JsonValue::Text(t)) => "string(len="@ + crate::text::decimal(t@.len()) + ")"@,
        Some(JsonValue::Array(p)) => "array(len="@ + crate::text::decimal(p@.len()) + ")"@,
        Some(JsonValue::Null) => "null"@,
        Some(JsonValue::Bool(_)) => "bool"@,
        Some(JsonValue::Number(_)) => "number"@,
        Some(JsonValue::Object(_)) => "object"@,
        None => "missing"@,
    }
}

fn content_shape_of(c: Option<&JsonValue>) -> (s: String)
    ensures
        s@ == content_shape(deref_opt(c)),
{
    match c {
        Some(JsonValue::Text(t)) => {
            let n = decimal_of(t.as_str().unicode_len());
            three("string(len=", n.as_str(), ")")
        },
        Some(JsonValue::Array(p)) => {
            let n = decimal_of(p.len());
            three("array(len=", n.as_str(), ")")
        },
        Some(JsonValue::Null) => "null".to_owned(),
        Some(JsonValue::Bool(_)) => "bool".to_owned(),
        Some(JsonValue::Number(_)) => "number".to_owned(),
        Some(JsonValue::Object(_)) => "object".to_owned(),
        None => "missing".to_owned(),
    }
}

fn three(a: &str, b: &str, c: &str) -> (s: String)
    ensures
        s@ == a@ + b@ + c@,
{
    let mut v: Vec<char> = Vec::new();
    crate::text::extend_str(&mut v, a);
    crate::text::extend_str(&mut v, b);
    crate::text::extend_str(&mut v, c);
    crate::text::string_of(&v)
}

/// The text of the string at `path` in `v`, else `default`.
pub open spec fn str_at_or(v: JsonValue, path: Seq<Seq<char>>, default: Seq<char>) -> Seq<char> {
    match opt_str(pointer(v, path)) {
        Some(t) => t,
        None => default,
    }
}

fn str_at_or_text(v: &JsonValue, path: &[&str], default: &str) -> (s: String)
    ensures
        s@ == str_at_or(*v, tokens_view(path@), default@),
{
    match crate::json::pointer_lookup(v, path) {
        Some(x) => match crate::json::string_value(x) {
            Some(t) => t.clone(),
            None => default.to_owned(),
        },
        None => default.to_owned(),
    }
}

/// The length in characters of the first choice's reasoning, where the reply
/// reports one.
pub open spec fn reasoning_chars(v: JsonValue) -> nat {
    match opt_str(pointer(v, seq!["choices"@, "0"@, "message"@, "reasoning_content"@])) {
        Some(t) => t.len(),
        None => match opt_str(pointer(v, seq!["choices"@, "0"@, "message"@, "reasoning"@])) {
            Some(t) => t.len(),
            None => 0,
        },
    }
}

/// The error of a Workers AI reply that holds no answer.
pub open spec fn cloudflare_no_text(v: JsonValue) -> Seq<char> {
    "Cloudflare Workers AI returned no chat completion text (finish_reason="@ + str_at_or(
        v,
        seq!["choices"@, "0"@, "finish_reason"@],
        "unknown"@,
    ) + ", content="@ + content_shape(
        pointer(v, seq!["choices"@, "0"@, "message"@, "content"@]),
    ) + ", reasoning_chars="@ + crate::text::decimal(reasoning_chars(v)) + ")"@
}

/// What a successful Workers AI reply `v` (read from the body `raw`) yields:
/// its answer; an error when it reports `success: false`, quoting the body;
/// an error describing the reply when it holds no answer.
pub open spec fn cloudflare_outcome(v: JsonValue, raw: Seq<char>) -> Result<Seq<char>, Seq<char>> {
    if opt_bool(get(v, "success"@)) == Some(false) {
        Err("Cloudflare Workers AI returned failure: "@ + trim(raw))
    } else {
        match cloudflare_answer(v) {
            Some(t) => Ok(t),
            None => Err(cloudflare_no_text(v)),
        }
    }
}

/// The text of a result.
pub open spec fn result_view(r: Result<String, String>) -> Result<Seq<char>, Seq<char>> {
    match r {
        Ok(s) => Ok(s@),
        Err(e) => Err(e@),
    }
}

/// The answer of a successful Workers AI reply, or why there is none.
pub fn cloudflare_reply(v: &JsonValue, raw: &str) -> (r: Result<String, String>)
    ensures
        result_view(r) == cloudflare_outcome(*v, raw@),
{
    let failed = match crate::json::member(v, "success") {
        Some(x) => crate::json::bool_value(x),
        None => None,
    };
    if failed == Some(false) {
        let t = crate::text::trim_text(raw);
        return Err(crate::text::concat_str("Cloudflare Workers AI returned failure: ", t.as_str()));
    }
    if let Some(t) = extract_cloudflare_chat_text(v) {
        return Ok(t);
    }
    let fr_path = ["choices", "0", "finish_reason"];
    assert(tokens_view(fr_path@) =~= seq!["choices"@, "0"@, "finish_reason"@]);
    let finish_reason = str_at_or_text(v, &fr_path, "unknown");
    let content_path = ["choices", "0", "message", "content"];
    assert(tokens_view(content_path@) =~= seq!["choices"@, "0"@, "message"@, "content"@]);
    let shape = content_shape_of(crate::json::pointer_lookup(v, &content_path));
    let rc_path = ["choices", "0", "message", "reasoning_content"];
    assert(tokens_view(rc_path@) =~= seq!["choices"@, "0"@, "message"@, "reasoning_content"@]);
    let r_path = ["choices", "0", "message", "reasoning"];
    assert(tokens_view(r_path@) =~= seq!["choices"@, "0"@, "message"@, "reasoning"@]);
    let rc = match crate::json::pointer_lookup(v, &rc_path) {
        Some(x) => crate::json::string_value(x),
        None => None,
    };
    let reasoning: usize = match rc {
        Some(t) => t.as_str().unicode_len(),
        None => {
            let r2 = match crate::json::pointer_lookup(v, &r_path) {
                Some(x) => crate::json::string_value(x),
                None => None,
            };
            match r2 {
                Some(t) => t.as_str().unicode_len(),
                None => 0,
            }
        },
    };
    let n = decimal_of(reasoning);
    let mut out: Vec<char> = Vec::new();
    crate::text::extend_str(
        &mut out,
        "Cloudflare Workers AI returned no chat completion text (finish_reason=",
    );
    crate::text::extend_str(&mut out, finish_reason.as_str());
    crate::text::extend_str(&mut out, ", content=");
    crate::text::extend_str(&mut out, shape.as_str());
    crate::text::extend_str(&mut out, ", reasoning_chars=");
    crate::text::extend_str(&mut out, n.as_str());
    crate::text::extend_str(&mut out, ")");
    Err(crate::text::string_of(&out))
}

// ---------------------------------------------------------------------------
// Gemini
// ---------------------------------------------------------------------------

/// A part marked as the model's thought.
pub open spec fn is_thought(part: JsonValue) -> bool {
    opt_bool(get(part, "thought"@)) == Some(true)
}

/// The part's `text` when it is a non-blank string.
pub open spec fn visible_text(part: JsonValue) -> Option<Seq<char>> {
    match opt_str(get(part, "text"@)) {
        Some(t) => if !is_blank(t) {
            Some(t)
        } else {
            None
        },
        None => None,
    }
}

/// The non-blank texts of the parts that are not thoughts (or, with
/// `thoughts_too`, of all parts), concatenated.
pub open spec fn joined_texts(parts: Seq<JsonValue>, thoughts_too: bool) -> Seq<char>
    decreases parts.len(),
{
    if parts.len() == 0 {
        seq![]
    } else {
        joined_texts(parts.drop_last(), thoughts_too) + if !thoughts_too && is_thought(
            parts.last(),
        ) {
            seq![]
        } else {
            match visible_text(parts.last()) {
                Some(t) => t,
                None => seq![],
            }
        }
    }
}

/// Where a Gemini reply holds the parts of its answer.
pub open spec fn gemini_parts_path() -> Seq<Seq<char>> {
    seq!["candidates"@, "0"@, "content"@, "parts"@]
}

/// The answer of a Gemini reply: the texts of its non-thought parts,
/// trimmed; failing that, the texts of all parts; nothing when both are
/// blank or the reply has no parts array.
pub open spec fn gemini_answer(v: JsonValue) -> Option<Seq<char>> {
    match pointer(v, gemini_parts_path()) {
        Some(JsonValue::Array(items)) => if !is_blank(joined_texts(items@, false)) {
            Some(trim(joined_texts(items@, false)))
        } else if !is_blank(joined_texts(items@, true)) {
            Some(trim(joined_texts(items@, true)))
        } else {
            None
        },
        _ => None,
    }
}

fn joined_texts_of(items: &Vec<JsonValue>, thoughts_too: bool) -> (s: String)
    ensures
        s@ == joined_texts(items@, thoughts_too),
{
    let mut out: Vec<char> = Vec::new();
    let mut i: usize = 0;
    while i < items.len()
        invariant
            i <= items@.len(),
            out@ == joined_texts(items@.take(i as int), thoughts_too),
        decreases items.len() - i,
    {
        let part = &items[i];
        let thought = match crate::json::member(part, "thought") {
            Some(x) => crate::json::bool_value(x) == Some(true),
            None => false,
        };
        if thoughts_too || !thought {
            let t = match crate::json::member(part, "text") {
                Some(x) => crate::json::string_value(x),
                None => None,
            };
            if let Some(t) = t {
                if !crate::text::is_blank_text(t.as_str()) {
                    crate::text::extend_str(&mut out, t.as_str());
                }
            }
        }
        i += 1;
        assert(items@.take(i as int).drop_last() =~= items@.take(i - 1));
    }
    assert(items@.take(items.len() as int) =~= items@);
    crate::text::string_of(&out)
}

/// The answer of a Gemini reply.
pub fn extract_gemini_text(v: &JsonValue) -> (r: Option<String>)
    ensures
        match r {
            Some(s) => gemini_answer(*v) == Some(s@),
            None => gemini_answer(*v) is None,
        },
{
    let p = ["candidates", "0", "content", "parts"];
    assert(tokens_view(p@) =~= gemini_parts_path());
    match crate::json::pointer_lookup(v, &p) {
        Some(JsonValue::Array(items)) => {
            let answer = joined_texts_of(items, false);
            if !crate::text::is_blank_text(answer.as_str()) {
                return Some(crate::text::trim_text(answer.as_str()));
            }
            let fallback = joined_texts_of(items, true);
            if crate::text::is_blank_text(fallback.as_str()) {
                None
            } else {
                Some(crate::text::trim_text(fallback.as_str()))
            }
        },
        _ => None,
    }
}

/// The error of a Gemini reply to a text request that holds no answer.
pub open spec fn gemini_no_text(v: JsonValue, model: Seq<char>) -> Seq<char> {
    "Gemini "@ + model + " returned no text (finishReason="@ + str_at_or(
        v,
        seq!["candidates"@, "0"@, "finishReason"@],
        "unknown"@,
    ) + ", blockReason="@ + str_at_or(v, seq!["promptFeedback"@, "blockReason"@], "none"@)
        + ")"@
}

/// The answer of a Gemini reply to a text request from `model`, or why there
/// is none.
pub fn gemini_reply(v: &JsonValue, model: &str) -> (r: Result<String, String>)
    ensures
        result_view(r) == match gemini_answer(*v) {
            Some(t) => Ok(t),
            None => Err(gemini_no_text(*v, model@)),
        },
{
    if let Some(t) = extract_gemini_text(v) {
        return Ok(t);
    }
    let fr_path = ["candidates", "0", "finishReason"];
    assert(tokens_view(fr_path@) =~= seq!["candidates"@, "0"@, "finishReason"@]);
    let br_path = ["promptFeedback", "blockReason"];
    assert(tokens_view(br_path@) =~= seq!["promptFeedback"@, "blockReason"@]);
    let fr = str_at_or_text(v, &fr_path, "unknown");
    let br = str_at_or_text(v, &br_path, "none");
    let mut out: Vec<char> = Vec::new();
    crate::text::extend_str(&mut out, "Gemini ");
    crate::text::extend_str(&mut out, model);
    crate::text::extend_str(&mut out, " returned no text (finishReason=");
    crate::text::extend_str(&mut out, fr.as_str());
    crate::text::extend_str(&mut out, ", blockReason=");
    crate::text::extend_str(&mut out, br.as_str());
    crate::text::extend_str(&mut out, ")");
    Err(crate::text::string_of(&out))
}

/// The error of a Gemini reply to an observation request that holds no answer.
pub open spec fn observation_no_text(v: JsonValue, model: Seq<char>) -> Seq<char> {
    "Google AI "@ + model + " returned no text (finishReason="@ + str_at_or(
        v,
        seq!["candidates"@, "0"@, "finishReason"@],
        "unknown"@,
    ) + ")"@
}

/// The answer of a Google AI reply to an observation request from `model`,
/// or why there is none.
pub fn observation_reply(v: &JsonValue, model: &str) -> (r: Result<String, String>)
    ensures
        result_view(r) == match gemini_answer(*v) {
            Some(t) => Ok(t),
            None => Err(observation_no_text(*v, model@)),
        },
{
    if let Some(t) = extract_gemini_text(v) {
        return Ok(t);
    }
    let fr_path = ["candidates", "0", "finishReason"];
    assert(tokens_view(fr_path@) =~= seq!["candidates"@, "0"@, "finishReason"@]);
    let fr = str_at_or_text(v, &fr_path, "unknown");
    let mut out: Vec<char> = Vec::new();
    crate::text::extend_str(&mut out, "Google AI ");
    crate::text::extend_str(&mut out, model);
    crate::text::extend_str(&mut out, " returned no text (finishReason=");
    crate::text::extend_str(&mut out, fr.as_str());
    crate::text::extend_str(&mut out, ")");
    Err(crate::text::string_of(&out))
}

// ---------------------------------------------------------------------------
// Observation JSON in the model's text
// ---------------------------------------------------------------------------

/// The model's text without surrounding white space and without a Markdown
/// code fence (an opening "```json" or "```", a closing "```").
pub open spec fn strip_fences(text: Seq<char>) -> Seq<char> {
    let c = trim(text);
    let c1 = if starts_with(c, "```json"@) {
        trim(c.skip(7))
    } else if starts_with(c, "```"@) {
        trim(c.skip(3))
    } else {
        c
    };
    if ends_with(c1, "```"@) {
        trim(c1.take(c1.len() - 3))
    } else {
        c1
    }
}

/// The text from the first `{` to the last `}`, when the first comes before
/// the last: the outer JSON object of a reply with a preface or a suffix.
pub open spec fn outer_object(c: Seq<char>) -> Option<Seq<char>> {
    match (find_first(c, '{'), find_last(c, '}')) {
        (Some(a), Some(b)) => if a < b {
            Some(c.subrange(a, b + 1))
        } else {
            None
        },
        _ => None,
    }
}

/// The model's text with a code fence and surrounding white space removed;
/// this is parsed as the observation first.
pub fn clean_observation_text(text: &str) -> (c: String)
    ensures
        c@ == strip_fences(text@),
{
    proof {
        reveal_strlit("```json");
        reveal_strlit("```");
    }
    let c = crate::text::trim_text(text);
    let c1 = if crate::text::starts_with_text(c.as_str(), "```json") {
        let v = crate::text::chars_of(c.as_str());
        let rest = crate::text::string_of_range(&v, 7, v.len());
        assert(rest@ =~= c@.skip(7));
        crate::text::trim_text(rest.as_str())
    } else if crate::text::starts_with_text(c.as_str(), "```") {
        let v = crate::text::chars_of(c.as_str());
        let rest = crate::text::string_of_range(&v, 3, v.len());
        assert(rest@ =~= c@.skip(3));
        crate::text::trim_text(rest.as_str())
    } else {
        c
    };
    if crate::text::ends_with_text(c1.as_str(), "```") {
        let v = crate::text::chars_of(c1.as_str());
        let rest = crate::text::string_of_range(&v, 0, v.len() - 3);
        assert(rest@ =~= c1@.take(c1@.len() - 3));
        crate::text::trim_text(rest.as_str())
    } else {
        c1
    }
}

/// The outer JSON object of a cleaned reply, parsed as the observation when
/// the whole text is not valid JSON.
pub fn outer_json_object(cleaned: &str) -> (r: Option<String>)
    ensures
        match r {
            Some(s) => outer_object(cleaned@) == Some(s@),
            None => outer_object(cleaned@) is None,
        },
{
    let v = crate::text::chars_of(cleaned);
    match (crate::text::index_of_first(&v, '{'), crate::text::index_of_last(&v, '}')) {
        (Some(a), Some(b)) => if a < b {
            Some(crate::text::string_of_range(&v, a, b + 1))
        } else {
            None
        },
        _ => None,
    }
}

/// Whether `model` is a Gemma 4 model, which is asked to think minimally
/// instead of being held to a JSON response schema.
pub fn uses_thinking_config(model: &str) -> (r: bool)
    ensures
        r == starts_with(model@, "gemma-4"@),
{
    crate::text::starts_with_text(model, "gemma-4")
}

} // verus!
