//! The local desktop recorder (screenpipe): which addresses count as local,
//! how busy replies are retried, and how its search results become an
//! activity snapshot.

use vstd::prelude::*;
use crate::json::{JsonValue, as_str, get, deref_opt};
use crate::replies::{opt_str, opt_bool};
use crate::text::{ascii_lower, contains, starts_with, trim, compact_whitespace, take_chars};

verus! {

// ---------------------------------------------------------------------------
// Addresses
// ---------------------------------------------------------------------------

/// The recorder address points at this machine (`127.0.0.1` or `localhost`
/// over plain HTTP with an explicit port), ignoring case and surrounding
/// white space.
pub open spec fn is_local_url(base: Seq<char>) -> bool {
    let b = ascii_lower(trim(base));
    starts_with(b, "http://127.0.0.1:"@) || starts_with(b, "http://localhost:"@)
}

/// Whether the recorder address points at this machine.
pub fn local_screenpipe_url(base: &str) -> (r: bool)
    ensures
        r == is_local_url(base@),
{
    let t = crate::text::trim_text(base);
    let b = crate::text::to_ascii_lower(t.as_str());
    crate::text::starts_with_text(b.as_str(), "http://127.0.0.1:") || crate::text::starts_with_text(
        b.as_str(),
        "http://localhost:",
    )
}

/// `s` without its trailing slashes (what `trim_end_matches('/')` returns).
pub open spec fn without_trailing_slashes(s: Seq<char>) -> Seq<char>
    decreases s.len(),
{
    if s.len() > 0 && s.last() == '/' {
        without_trailing_slashes(s.drop_last())
    } else {
        s
    }
}

/// The address of the recorder's route `path` (which starts with `/`).
pub fn endpoint(base: &str, path: &str) -> (url: String)
    ensures
        url@ == without_trailing_slashes(base@) + path@,
{
    let v = crate::text::chars_of(base);
    let mut j: usize = v.len();
    assert(v@.take(v.len() as int) =~= v@);
    while j > 0 && v[j - 1] == '/'
        invariant
            j <= v.len(),
            without_trailing_slashes(v@) == without_trailing_slashes(v@.take(j as int)),
        decreases j,
    {
        assert(v@.take(j as int).drop_last() =~= v@.take(j - 1));
        j -= 1;
    }
    proof {
        assert(v@.take(v.len() as int) =~= v@);
    }
    let mut out = crate::text::string_of_range(&v, 0, j);
    assert(out@ =~= v@.take(j as int));
    let mut w: Vec<char> = crate::text::chars_of(out.as_str());
    crate::text::extend_str(&mut w, path);
    out = crate::text::string_of(&w);
    out
}

/// `url::Url::parse(base)` followed by `port_or_known_default`: nothing when
/// the address does not parse, else its port if it has one or its scheme
/// has a known default.
pub uninterp spec fn url_port(base: Seq<char>) -> Option<Option<u16>>;

/// Calls `reqwest::Url::parse` and `port_or_known_default` on the result.
/// The port depends on the address alone; which addresses parse is left
/// unsaid.
#[verifier::external_body]
fn parse_url_port(base: &str) -> (r: Option<Option<u16>>)
    ensures
        r == url_port(base@),
{
    match reqwest::Url::parse(base) {
        Ok(u) => Some(u.port_or_known_default()),
        Err(_) => None,
    }
}

/// The TCP port of a local recorder address: refused for a non-local
/// address, an address that does not parse, or one without a port.
pub fn local_port(base: &str) -> (r: Result<u16, String>)
    ensures
        match r {
            Ok(p) => is_local_url(base@) && url_port(base@) == Some(Some(p)),
            Err(e) => !is_local_url(base@) && e@ == "refusing to stop non-local screenpipe URL: "@
                + base@ || is_local_url(base@) && url_port(base@) is None && e@
                == "parse screenpipe URL "@ + base@ || is_local_url(base@) && url_port(base@)
                == Some(None::<u16>) && e@ == "screenpipe URL has no port: "@ + base@,
        },
{
    if !local_screenpipe_url(base) {
        return Err(crate::text::concat_str("refusing to stop non-local screenpipe URL: ", base));
    }
    match parse_url_port(base) {
        None => Err(crate::text::concat_str("parse screenpipe URL ", base)),
        Some(None) => Err(crate::text::concat_str("screenpipe URL has no port: ", base)),
        Some(Some(p)) => Ok(p),
    }
}

/// The refusal to start a recorder at a non-local address.
pub fn non_local_start_refusal(base: &str) -> (e: String)
    ensures
        e@ == "screenpipe is not reachable at configured non-local URL: "@ + base@,
{
    crate::text::concat_str("screenpipe is not reachable at configured non-local URL: ", base)
}

/// A process whose command line names screenpipe (in any letter case): only
/// such a process is signalled when the recorder is stopped.
pub fn is_screenpipe_command(command: &str) -> (r: bool)
    ensures
        r == contains(ascii_lower(command@), "screenpipe"@),
{
    let lower = crate::text::to_ascii_lower(command);
    crate::text::contains_text(lower.as_str(), "screenpipe")
}

/// The options with which the recorder is started.
pub open spec fn recorder_args() -> Seq<char> {
    "record --disable-audio --app-context memory --disable-keyboard-capture=false --disable-clipboard-capture=true --capture-scroll=true --prioritize-input-latency --disable-meeting-detector --disable-telemetry --retention-days 14 --retention-mode media --idle-capture-interval-ms 30000"@
}

/// The login-shell script that starts the recorder: an installed
/// `screenpipe` when there is one, else `npx -y screenpipe@latest`.
pub fn recorder_launch_script() -> (s: String)
    ensures
        s@ == "if command -v screenpipe >/dev/null 2>&1; then exec screenpipe "@ + recorder_args()
            + "; else exec npx -y screenpipe@latest "@ + recorder_args() + "; fi"@,
{
    let args = "record --disable-audio --app-context memory --disable-keyboard-capture=false --disable-clipboard-capture=true --capture-scroll=true --prioritize-input-latency --disable-meeting-detector --disable-telemetry --retention-days 14 --retention-mode media --idle-capture-interval-ms 30000";
    let mut v: Vec<char> = Vec::new();
    crate::text::extend_str(&mut v, "if command -v screenpipe >/dev/null 2>&1; then exec screenpipe ");
    crate::text::extend_str(&mut v, args);
    crate::text::extend_str(&mut v, "; else exec npx -y screenpipe@latest ");
    crate::text::extend_str(&mut v, args);
    crate::text::extend_str(&mut v, "; fi");
    crate::text::string_of(&v)
}

// ---------------------------------------------------------------------------
// Retrying busy searches
// ---------------------------------------------------------------------------

/// The number of times a search is sent at most: once, and up to four
/// retries.
pub const SEARCH_ATTEMPTS: u32 = 5;

/// A reply status that only means the recorder is busy: 503 or 429.
pub open spec fn transient_status(status: u16) -> bool {
    status == 503 || status == 429
}

/// Whether a reply with `status` to attempt number `attempt` (from 0) is
/// retried: busy replies, on all but the last attempt.
pub fn should_retry(status: u16, attempt: u32) -> (r: bool)
    ensures
        r == (transient_status(status) && attempt < SEARCH_ATTEMPTS - 1),
{
    (status == 503 || status == 429) && attempt < SEARCH_ATTEMPTS - 1
}

/// Whether a reply with `status` to an authenticated search shows that the
/// search route can be reached: a success, or a reply that only says the
/// recorder is busy.
pub fn search_route_reachable(status: u16) -> (r: bool)
    ensures
        r == ((200 <= status < 300) || transient_status(status)),
{
    (200 <= status && status < 300) || status == 503 || status == 429
}

/// The pause before retry number `attempt` (from 0), in milliseconds: the
/// server's `Retry-After` seconds, else the `retry_after_ms` it put in the
/// body, else 350 ms doubled per attempt; always between 200 and 2500 ms.
pub open spec fn retry_delay(retry_after_secs: Option<u64>, body_delay_ms: Option<u64>, attempt: nat) -> int {
    let raw: int = match retry_after_secs {
        Some(s) => if s * 1000 > u64::MAX {
            u64::MAX as int
        } else {
            s * 1000
        },
        None => match body_delay_ms {
            Some(d) => d as int,
            None => 350 * (vstd::arithmetic::power2::pow2(attempt) as int),
        },
    };
    if raw < 200 {
        200
    } else if raw > 2500 {
        2500
    } else {
        raw
    }
}

/// The pause before retry number `attempt` of a busy search.
pub fn retry_delay_ms(retry_after_secs: Option<u64>, body_delay_ms: Option<u64>, attempt: u32) -> (d: u64)
    requires
        attempt < SEARCH_ATTEMPTS,
    ensures
        d == retry_delay(retry_after_secs, body_delay_ms, attempt as nat),
        200 <= d <= 2500,
{
    let raw: u64 = match retry_after_secs {
        Some(s) => if s > u64::MAX / 1000 {
            u64::MAX
        } else {
            s * 1000
        },
        None => match body_delay_ms {
            Some(d) => d,
            None => {
                proof {
                    vstd::arithmetic::power2::lemma2_to64();
                }
                let factor: u64 = if attempt == 0 {
                    1
                } else if attempt == 1 {
                    2
                } else if attempt == 2 {
                    4
                } else if attempt == 3 {
                    8
                } else {
                    16
                };
                350 * factor
            },
        },
    };
    if raw < 200 {
        200
    } else if raw > 2500 {
        2500
    } else {
        raw
    }
}

/// The `retry_after_ms` that a busy reply's body may carry.
pub fn body_retry_delay(body: &JsonValue) -> (d: Option<u64>)
    ensures
        d == match get(*body, "retry_after_ms"@) {
            Some(x) => crate::json::as_u64(x),
            None => None,
        },
{
    match crate::json::member(body, "retry_after_ms") {
        Some(x) => crate::json::u64_value(x),
        None => None,
    }
}

// ---------------------------------------------------------------------------
// Search results
// ---------------------------------------------------------------------------

/// The record's content (its `content` member, else the record itself),
/// unless it is marked as not focused.
pub open spec fn focused_content(item: JsonValue) -> Option<JsonValue> {
    let content = match get(item, "content"@) {
        Some(c) => c,
        None => item,
    };
    if opt_bool(get(content, "focused"@)) == Some(false) {
        None
    } else {
        Some(content)
    }
}

/// A non-empty string member `key` of a focused record.
pub open spec fn focused_field(item: JsonValue, key: Seq<char>) -> Option<Seq<char>> {
    match focused_content(item) {
        Some(c) => match opt_str(get(c, key)) {
            Some(t) => if t.len() > 0 {
                Some(t)
            } else {
                None
            },
            None => None,
        },
        None => None,
    }
}

/// A screen-text excerpt of a focused record: its text with white space
/// compacted, kept when that is at least 20 bytes of UTF-8 long, and cut to
/// 360 characters.
pub open spec fn snippet_of(item: JsonValue) -> Option<Seq<char>> {
    match focused_content(item) {
        Some(c) => match opt_str(get(c, "text"@)) {
            Some(t) => if crate::text::utf8_len(compact_whitespace(t)) >= 20 {
                Some(take_chars(compact_whitespace(t), 360))
            } else {
                None
            },
            None => None,
        },
        None => None,
    }
}

/// The distinct values of the field `key` in the records, in the order they
/// first appear.
pub open spec fn distinct_values(items: Seq<JsonValue>, key: Seq<char>) -> Seq<Seq<char>>
    decreases items.len(),
{
    if items.len() == 0 {
        seq![]
    } else {
        let prev = distinct_values(items.drop_last(), key);
        match focused_field(items.last(), key) {
            Some(t) => if prev.contains(t) {
                prev
            } else {
                prev.push(t)
            },
            None => prev,
        }
    }
}

/// How many records have `name` as their field `key`.
pub open spec fn count_value(items: Seq<JsonValue>, key: Seq<char>, name: Seq<char>) -> nat
    decreases items.len(),
{
    if items.len() == 0 {
        0
    } else {
        count_value(items.drop_last(), key, name) + if focused_field(items.last(), key) == Some(
            name,
        ) {
            1nat
        } else {
            0nat
        }
    }
}

/// The first eight screen-text excerpts of the records.
pub open spec fn snippets_of(items: Seq<JsonValue>) -> Seq<Seq<char>>
    decreases items.len(),
{
    if items.len() == 0 {
        seq![]
    } else {
        let prev = snippets_of(items.drop_last());
        if prev.len() < 8 {
            match snippet_of(items.last()) {
                Some(s) => prev.push(s),
                None => prev,
            }
        } else {
            prev
        }
    }
}

/// The window titles kept in a snapshot: the first twelve distinct titles,
/// each cut to 120 characters.
pub open spec fn kept_titles(items: Seq<JsonValue>) -> Seq<Seq<char>> {
    let t = distinct_values(items, "window_name"@);
    let first = if t.len() <= 12 {
        t
    } else {
        t.take(12)
    };
    first.map_values(|x: Seq<char>| take_chars(x, 120))
}

/// What the screen search yielded.
#[derive(Debug, Clone)]
pub struct ScreenSummary {
    /// Each foreground application and the number of focused records of it,
    /// in the order the applications first appear.
    pub app_counts: Vec<(String, usize)>,
    pub window_titles: Vec<String>,
    pub snippets: Vec<String>,
    pub records: usize,
}

/// The records of a search reply: its `data` array.
pub open spec fn data_items(reply: JsonValue) -> Option<Seq<JsonValue>> {
    match get(reply, "data"@) {
        Some(JsonValue::Array(items)) => Some(items@),
        _ => None,
    }
}

/// The texts of the strings of `v`.
pub open spec fn string_texts(v: Seq<String>) -> Seq<Seq<char>> {
    v.map_values(|s: String| s@)
}

/// `s` summarises the records `items`.
pub open spec fn summarises(s: ScreenSummary, items: Seq<JsonValue>) -> bool {
    &&& s.records == items.len()
    &&& s.app_counts@.len() == distinct_values(items, "app_name"@).len()
    &&& forall|k: int|
        0 <= k < s.app_counts@.len() ==> (#[trigger] s.app_counts@[k]).0@ == distinct_values(
            items,
            "app_name"@,
        )[k] && s.app_counts@[k].1 == count_value(items, "app_name"@, s.app_counts@[k].0@)
    &&& string_texts(s.window_titles@) == kept_titles(items)
    &&& string_texts(s.snippets@) == snippets_of(items)
}

fn focused_content_of<'a>(item: &'a JsonValue) -> (r: Option<&'a JsonValue>)
    ensures
        deref_opt(r) == focused_content(*item),
{
    let content = match crate::json::member(item, "content") {
        Some(c) => c,
        None => item,
    };
    let focused = match crate::json::member(content, "focused") {
        Some(x) => crate::json::bool_value(x),
        None => None,
    };
    if focused == Some(false) {
        None
    } else {
        Some(content)
    }
}

fn focused_field_of<'a>(item: &'a JsonValue, key: &str) -> (r: Option<&'a String>)
    ensures
        match r {
            Some(s) => focused_field(*item, key@) == Some(s@),
            None => focused_field(*item, key@) is None,
        },
{
    match focused_content_of(item) {
        Some(c) => match crate::json::member(c, key) {
            Some(x) => match crate::json::string_value(x) {
                Some(t) => if t.as_str().unicode_len() > 0 {
                    Some(t)
                } else {
                    None
                },
                None => None,
            },
            None => None,
        },
        None => None,
    }
}

fn snippet_of_item(item: &JsonValue) -> (r: Option<String>)
    ensures
        match r {
            Some(s) => snippet_of(*item) == Some(s@),
            None => snippet_of(*item) is None,
        },
{
    match focused_content_of(item) {
        Some(c) => match crate::json::member(c, "text") {
            Some(x) => match crate::json::string_value(x) {
                Some(t) => {
                    let compact = crate::text::compact_whitespace_text(t.as_str());
                    if crate::text::utf8_len_at_least(compact.as_str(), 20) {
                        Some(crate::text::take_chars_text(compact.as_str(), 360))
                    } else {
                        None
                    }
                },
                None => None,
            },
            None => None,
        },
        None => None,
    }
}

/// Position of `name` among the first components of `v`.
fn position_of(v: &Vec<(String, usize)>, name: &str) -> (r: Option<usize>)
    ensures
        match r {
            Some(k) => k < v@.len() && v@[k as int].0@ == name@,
            None => forall|k: int| 0 <= k < v@.len() ==> v@[k].0@ != name@,
        },
{
    let mut k: usize = 0;
    while k < v.len()
        invariant
            k <= v@.len(),
            forall|j: int| 0 <= j < k ==> v@[j].0@ != name@,
        decreases v.len() - k,
    {
        if crate::text::same_text(v[k].0.as_str(), name) {
            return Some(k);
        }
        k += 1;
    }
    None
}

/// Position of `name` in `v`.
fn index_in(v: &Vec<String>, name: &str) -> (r: Option<usize>)
    ensures
        match r {
            Some(k) => k < v@.len() && v@[k as int]@ == name@,
            None => forall|k: int| 0 <= k < v@.len() ==> v@[k]@ != name@,
        },
{
    let mut k: usize = 0;
    while k < v.len()
        invariant
            k <= v@.len(),
            forall|j: int| 0 <= j < k ==> v@[j]@ != name@,
        decreases v.len() - k,
    {
        if crate::text::same_text(v[k].as_str(), name) {
            return Some(k);
        }
        k += 1;
    }
    None
}

proof fn lemma_count_other(items: Seq<JsonValue>, key: Seq<char>, name: Seq<char>, i: int)
    requires
        0 <= i < items.len(),
        focused_field(items[i], key) != Some(name),
    ensures
        count_value(items.take(i + 1), key, name) == count_value(items.take(i), key, name),
{
    assert(items.take(i + 1).drop_last() =~= items.take(i));
}

proof fn lemma_count_same(items: Seq<JsonValue>, key: Seq<char>, name: Seq<char>, i: int)
    requires
        0 <= i < items.len(),
        focused_field(items[i], key) == Some(name),
    ensures
        count_value(items.take(i + 1), key, name) == count_value(items.take(i), key, name) + 1,
{
    assert(items.take(i + 1).drop_last() =~= items.take(i));
}

proof fn lemma_count_absent(items: Seq<JsonValue>, key: Seq<char>, name: Seq<char>)
    requires
        !distinct_values(items, key).contains(name),
    ensures
        count_value(items, key, name) == 0,
    decreases items.len(),
{
    if items.len() > 0 {
        let prev = distinct_values(items.drop_last(), key);
        assert(!prev.contains(name)) by {
            if prev.contains(name) {
                let k = choose|k: int| 0 <= k < prev.len() && prev[k] == name;
                match focused_field(items.last(), key) {
                    Some(t) => if !prev.contains(t) {
                        assert(prev.push(t)[k] == name);
                    },
                    None => {},
                }
            }
        }
        lemma_count_absent(items.drop_last(), key, name);
        if focused_field(items.last(), key) == Some(name) {
            assert(distinct_values(items, key) == prev.push(name));
            assert(distinct_values(items, key)[prev.len() as int] == name);
        }
    }
}

/// Summarises the records of a screen search reply. A reply without a
/// `data` array yields an empty summary.
pub fn summarize_screen(all: &JsonValue) -> (s: ScreenSummary)
    ensures
        match data_items(*all) {
            Some(items) => summarises(s, items),
            None => s.records == 0 && s.app_counts@.len() == 0 && s.window_titles@.len() == 0
                && s.snippets@.len() == 0,
        },
{
    let items = match crate::json::member(all, "data") {
        Some(JsonValue::Array(items)) => items,
        _ => {
            return ScreenSummary {
                app_counts: Vec::new(),
                window_titles: Vec::new(),
                snippets: Vec::new(),
                records: 0,
            };
        },
    };
    let ghost all_items = items@;
    let mut counts: Vec<(String, usize)> = Vec::new();
    let mut seen: Vec<String> = Vec::new();
    let mut titles: Vec<String> = Vec::new();
    let mut snippets: Vec<String> = Vec::new();
    let mut i: usize = 0;
    while i < items.len()
        invariant
            i <= items@.len(),
            all_items == items@,
            data_items(*all) == Some(all_items),
            counts@.len() == distinct_values(items@.take(i as int), "app_name"@).len(),
            forall|k: int|
                0 <= k < counts@.len() ==> (#[trigger] counts@[k]).0@ == distinct_values(
                    items@.take(i as int),
                    "app_name"@,
                )[k] && counts@[k].1 == count_value(
                    items@.take(i as int),
                    "app_name"@,
                    counts@[k].0@,
                ),
            counts@.len() <= i,
            forall|k: int| 0 <= k < counts@.len() ==> #[trigger] counts@[k].1 <= i,
            string_texts(seen@) == distinct_values(items@.take(i as int), "window_name"@),
            string_texts(titles@) == (if seen@.len() <= 12 {
                string_texts(seen@)
            } else {
                string_texts(seen@).take(12)
            }).map_values(|x: Seq<char>| take_chars(x, 120)),
            string_texts(snippets@) == snippets_of(items@.take(i as int)),
        decreases items.len() - i,
    {
        let item = &items[i];
        let ghost prefix = items@.take(i as int);
        let ghost next = items@.take(i + 1);
        assert(next.drop_last() =~= prefix);
        assert(next.last() == items@[i as int]);
        if let Some(app) = focused_field_of(item, "app_name") {
            match position_of(&counts, app.as_str()) {
                Some(k) => {
                    let c = counts[k].1;
                    let name = counts[k].0.clone();
                    proof {
                        lemma_count_same(items@, "app_name"@, app@, i as int);
                        let d = distinct_values(prefix, "app_name"@);
                        assert(d[k as int] == app@);
                        assert(d.contains(app@));
                        assert(distinct_values(next, "app_name"@) == d);
                        assert forall|j: int| 0 <= j < counts@.len() && j != k implies count_value(
                            next,
                            "app_name"@,
                            #[trigger] counts@[j].0@,
                        ) == count_value(prefix, "app_name"@, counts@[j].0@) by {
                            assert(counts@[j].0@ == d[j]);
                            assert(d[j] != d[k as int]) by {
                                lemma_distinct_values_unique(prefix, "app_name"@, j, k as int);
                            }
                            lemma_count_other(items@, "app_name"@, counts@[j].0@, i as int);
                        }
                    }
                    counts.set(k, (name, c + 1));
                },
                None => {
                    proof {
                        let d = distinct_values(prefix, "app_name"@);
                        assert(!d.contains(app@)) by {
                            if d.contains(app@) {
                                let j = choose|j: int| 0 <= j < d.len() && d[j] == app@;
                                assert(counts@[j].0@ == app@);
                            }
                        }
                        lemma_count_absent(prefix, "app_name"@, app@);
                        lemma_count_same(items@, "app_name"@, app@, i as int);
                        assert(distinct_values(next, "app_name"@) == d.push(app@));
                        assert forall|j: int| 0 <= j < counts@.len() implies count_value(
                            next,
                            "app_name"@,
                            #[trigger] counts@[j].0@,
                        ) == count_value(prefix, "app_name"@, counts@[j].0@) by {
                            lemma_count_other(items@, "app_name"@, counts@[j].0@, i as int);
                        }
                    }
                    counts.push((app.clone(), 1));
                },
            }
        } else {
            proof {
                assert forall|j: int| 0 <= j < counts@.len() implies count_value(
                    next,
                    "app_name"@,
                    #[trigger] counts@[j].0@,
                ) == count_value(prefix, "app_name"@, counts@[j].0@) by {
                    lemma_count_other(items@, "app_name"@, counts@[j].0@, i as int);
                }
            }
        }
        if let Some(title) = focused_field_of(item, "window_name") {
            if index_in(&seen, title.as_str()).is_none() {
                proof {
                    let d = distinct_values(prefix, "window_name"@);
                    assert(!d.contains(title@)) by {
                        if d.contains(title@) {
                            let j = choose|j: int| 0 <= j < d.len() && d[j] == title@;
                            assert(string_texts(seen@)[j] == seen@[j]@);
                        }
                    }
                }
                let ghost seen_before = string_texts(seen@);
                let ghost titles_before = string_texts(titles@);
                if seen.len() < 12 {
                    let kept = crate::text::take_chars_text(title.as_str(), 120);
                    titles.push(kept);
                }
                seen.push(title.clone());
                proof {
                    assert(string_texts(seen@) =~= seen_before.push(title@));
                    if seen_before.len() < 12 {
                        assert(titles_before == seen_before.map_values(
                            |x: Seq<char>| take_chars(x, 120),
                        ));
                        assert(string_texts(titles@) =~= titles_before.push(take_chars(title@, 120)));
                        assert(string_texts(titles@) =~= string_texts(seen@).map_values(
                            |x: Seq<char>| take_chars(x, 120),
                        ));
                    } else {
                        assert(string_texts(seen@).take(12) =~= seen_before.take(12));
                    }
                }
            } else {
                proof {
                    let d = distinct_values(prefix, "window_name"@);
                    let j = choose|j: int| 0 <= j < seen@.len() && seen@[j]@ == title@;
                    assert(d[j] == title@);
                    assert(d.contains(title@));
                }
            }
        }
        if snippets.len() < 8 {
            if let Some(snippet) = snippet_of_item(item) {
                let ghost before = string_texts(snippets@);
                snippets.push(snippet);
                assert(string_texts(snippets@) =~= before.push(snippet_of(items@[i as int])->0));
            }
        }
        i += 1;
    }
    proof {
        assert(items@.take(items.len() as int) =~= items@);
    }
    ScreenSummary {
        app_counts: counts,
        window_titles: titles,
        snippets,
        records: items.len(),
    }
}

proof fn lemma_distinct_values_unique(items: Seq<JsonValue>, key: Seq<char>, a: int, b: int)
    requires
        0 <= a < distinct_values(items, key).len(),
        0 <= b < distinct_values(items, key).len(),
        a != b,
    ensures
        distinct_values(items, key)[a] != distinct_values(items, key)[b],
    decreases items.len(),
{
    if items.len() > 0 {
        let prev = distinct_values(items.drop_last(), key);
        let d = distinct_values(items, key);
        if d.len() == prev.len() {
            assert(d == prev);
            lemma_distinct_values_unique(items.drop_last(), key, a, b);
        } else {
            let t = focused_field(items.last(), key)->0;
            assert(d == prev.push(t));
            if a < prev.len() && b < prev.len() {
                lemma_distinct_values_unique(items.drop_last(), key, a, b);
            } else if a == prev.len() {
                assert(d[b] == prev[b]);
                assert(!prev.contains(t));
            } else {
                assert(d[a] == prev[a]);
                assert(!prev.contains(t));
            }
        }
    }
}

// ---------------------------------------------------------------------------
// Input events
// ---------------------------------------------------------------------------

/// The kind of an input event.
#[derive(Debug, Clone, Copy, PartialEq, Eq, Structural)]
pub enum InputKind {
    Keyboard,
    Mouse,
    Other,
}

/// The metadata members that may name an event's type, in the order looked at.
pub open spec fn kind_key(i: int) -> Seq<char> {
    if i == 0 {
        "event_type"@
    } else if i == 1 {
        "input_type"@
    } else if i == 2 {
        "kind"@
    } else if i == 3 {
        "device"@
    } else {
        "type"@
    }
}

/// The kind that the lower-cased type name `s` denotes, if any.
pub open spec fn kind_of_name(s: Seq<char>) -> Option<InputKind> {
    let l = ascii_lower(s);
    if contains(l, "key"@) || contains(l, "keyboard"@) {
        Some(InputKind::Keyboard)
    } else if contains(l, "mouse"@) || contains(l, "click"@) || contains(l, "scroll"@)
        || contains(l, "pointer"@) {
        Some(InputKind::Mouse)
    } else {
        None
    }
}

/// The kind named by the first telling metadata member from the `i`-th on.
pub open spec fn classify_from(content: JsonValue, i: int) -> InputKind
    decreases 5 - i,
{
    if i >= 5 || i < 0 {
        InputKind::Other
    } else {
        match opt_str(get(content, kind_key(i))) {
            Some(s) => match kind_of_name(s) {
                Some(k) => k,
                None => classify_from(content, i + 1),
            },
            None => classify_from(content, i + 1),
        }
    }
}

/// The part of a search record that holds the event: its `content` member,
/// or the record itself when it has none.
pub open spec fn event_content(v: JsonValue) -> JsonValue {
    match get(v, "content"@) {
        Some(c) => c,
        None => v,
    }
}

/// The kind of an input event, judged by its type metadata only (its key or
/// text fields are never read).
pub open spec fn classify(v: JsonValue) -> InputKind {
    classify_from(event_content(v), 0)
}

proof fn lemma_classify_from_agree(a: JsonValue, b: JsonValue, i: int)
    requires
        0 <= i <= 5,
        forall|j: int|
            i <= j < 5 ==> #[trigger] opt_str(get(a, kind_key(j))) == opt_str(get(b, kind_key(j))),
    ensures
        classify_from(a, i) == classify_from(b, i),
    decreases 5 - i,
{
    if i < 5 {
        assert(opt_str(get(a, kind_key(i))) == opt_str(get(b, kind_key(i))));
        lemma_classify_from_agree(a, b, i + 1);
    }
}

/// Law: an input event's kind depends on its five type fields alone. Two
/// events whose contents agree on those fields are classified alike,
/// whatever their key, text or other fields hold.
pub proof fn law_input_kind_ignores_text(a: JsonValue, b: JsonValue)
    requires
        forall|i: int|
            0 <= i < 5 ==> #[trigger] opt_str(get(event_content(a), kind_key(i))) == opt_str(
                get(event_content(b), kind_key(i)),
            ),
    ensures
        classify(a) == classify(b),
{
    lemma_classify_from_agree(event_content(a), event_content(b), 0);
}

fn kind_key_text(i: usize) -> (k: &'static str)
    requires
        i < 5,
    ensures
        k@ == kind_key(i as int),
{
    if i == 0 {
        "event_type"
    } else if i == 1 {
        "input_type"
    } else if i == 2 {
        "kind"
    } else if i == 3 {
        "device"
    } else {
        "type"
    }
}

fn kind_of_name_text(s: &str) -> (r: Option<InputKind>)
    ensures
        r == kind_of_name(s@),
{
    let l = crate::text::to_ascii_lower(s);
    let l = l.as_str();
    if crate::text::contains_text(l, "key") || crate::text::contains_text(l, "keyboard") {
        Some(InputKind::Keyboard)
    } else if crate::text::contains_text(l, "mouse") || crate::text::contains_text(l, "click")
        || crate::text::contains_text(l, "scroll") || crate::text::contains_text(l, "pointer") {
        Some(InputKind::Mouse)
    } else {
        None
    }
}

/// The kind of an input event.
pub fn classify_input_metadata(v: &JsonValue) -> (k: InputKind)
    ensures
        k == classify(*v),
{
    let content = match crate::json::member(v, "content") {
        Some(c) => c,
        None => v,
    };
    let mut i: usize = 0;
    while i < 5
        invariant
            i <= 5,
            classify(*v) == classify_from(*content, i as int),
        decreases 5 - i,
    {
        let key = kind_key_text(i);
        let name = match crate::json::member(content, key) {
            Some(x) => crate::json::string_value(x),
            None => None,
        };
        if let Some(s) = name {
            if let Some(k) = kind_of_name_text(s.as_str()) {
                return k;
            }
        }
        i += 1;
    }
    InputKind::Other
}

/// How many of the events are of kind `k`.
pub open spec fn count_kind(items: Seq<JsonValue>, k: InputKind) -> nat
    decreases items.len(),
{
    if items.len() == 0 {
        0
    } else {
        count_kind(items.drop_last(), k) + if classify(items.last()) == k {
            1nat
        } else {
            0nat
        }
    }
}

/// Counts of input events by kind.
#[derive(Debug, Clone, Copy)]
pub struct InputCounts {
    pub keyboard: usize,
    pub mouse: usize,
    pub total: usize,
}

/// Counts the input events of an input search reply; a reply without a
/// `data` array (such as a failed search) counts nothing.
pub fn count_inputs(input: &JsonValue) -> (c: InputCounts)
    ensures
        match data_items(*input) {
            Some(items) => c.total == items.len() && c.keyboard == count_kind(
                items,
                InputKind::Keyboard,
            ) && c.mouse == count_kind(items, InputKind::Mouse),
            None => c.total == 0 && c.keyboard == 0 && c.mouse == 0,
        },
{
    let items = match crate::json::member(input, "data") {
        Some(JsonValue::Array(items)) => items,
        _ => {
            return InputCounts { keyboard: 0, mouse: 0, total: 0 };
        },
    };
    let mut keyboard: usize = 0;
    let mut mouse: usize = 0;
    let mut i: usize = 0;
    while i < items.len()
        invariant
            i <= items@.len(),
            data_items(*input) == Some(items@),
            keyboard == count_kind(items@.take(i as int), InputKind::Keyboard),
            mouse == count_kind(items@.take(i as int), InputKind::Mouse),
            keyboard + mouse <= i,
        decreases items.len() - i,
    {
        assert(items@.take(i + 1).drop_last() =~= items@.take(i as int));
        match classify_input_metadata(&items[i]) {
            InputKind::Keyboard => {
                keyboard += 1;
            },
            InputKind::Mouse => {
                mouse += 1;
            },
            InputKind::Other => {},
        }
        i += 1;
    }
    assert(items@.take(items.len() as int) =~= items@);
    InputCounts { keyboard, mouse, total: items.len() }
}

// ---------------------------------------------------------------------------
// Idle time and the foreground applications
// ---------------------------------------------------------------------------

/// The estimate of idle seconds in a window of `total_secs`: all of it when
/// nothing happened, two thirds when fewer than three input events and fewer
/// than three screen records were seen, none otherwise.
pub open spec fn idle_estimate(total_secs: u64, input_total: usize, records: usize) -> int {
    if input_total + records == 0 {
        total_secs as int
    } else if input_total < 3 && records < 3 {
        (if total_secs * 2 > u64::MAX {
            u64::MAX as int
        } else {
            total_secs * 2
        }) / 3
    } else {
        0
    }
}

/// Law: seen activity means no idle time. With three or more screen records,
/// or three or more input events, nothing of the window is idle; the whole
/// window counts as idle exactly when neither input events nor screen
/// records were seen (for a window of some length); and the estimate never
/// exceeds the window.
pub proof fn law_idle_estimate(total_secs: u64, input_total: usize, records: usize)
    ensures
        records >= 3 ==> idle_estimate(total_secs, input_total, records) == 0,
        input_total >= 3 ==> idle_estimate(total_secs, input_total, records) == 0,
        0 <= idle_estimate(total_secs, input_total, records) <= total_secs,
        total_secs > 0 ==> (idle_estimate(total_secs, input_total, records) == total_secs
            <==> input_total == 0 && records == 0),
{
}

/// The estimated idle seconds of a window.
pub fn idle_seconds_estimate(total_secs: u64, input_total: usize, records: usize) -> (s: u64)
    ensures
        s == idle_estimate(total_secs, input_total, records),
{
    if input_total == 0 && records == 0 {
        total_secs
    } else if input_total < 3 && records < 3 {
        let doubled = if total_secs > u64::MAX / 2 {
            u64::MAX
        } else {
            total_secs * 2
        };
        doubled / 3
    } else {
        0
    }
}

/// The length of the window from `start` to `end` in whole seconds, zero when
/// `end` is not later.
pub fn window_seconds(start: crate::clock::Instant, end: crate::clock::Instant) -> (s: u64)
    ensures
        s == (if crate::clock::whole_seconds(crate::clock::nanos_between(start, end)) <= 0 {
            0
        } else if crate::clock::whole_seconds(crate::clock::nanos_between(start, end)) > u64::MAX {
            u64::MAX as int
        } else {
            crate::clock::whole_seconds(crate::clock::nanos_between(start, end))
        }),
{
    let d = crate::clock::seconds_between(start, end);
    if d <= 0 {
        0
    } else if d > u64::MAX as i128 {
        u64::MAX
    } else {
        d as u64
    }
}

/// `a` is sorted by seconds, largest first.
pub open spec fn sorted_by_seconds_desc(a: Seq<crate::models::AppActivity>) -> bool {
    forall|i: int, j: int| 0 <= i < j < a.len() ==> a[i].seconds >= a[j].seconds
}

/// `top` holds the applications of `all` with the most seconds, most first:
/// together with the ones left out it is `all` again, and none left out has
/// more seconds than one kept.
pub open spec fn is_top_of(top: Seq<crate::models::AppActivity>, all: Seq<crate::models::AppActivity>) -> bool {
    &&& sorted_by_seconds_desc(top)
    &&& exists|left: Seq<crate::models::AppActivity>|
        #[trigger] top.to_multiset().add(left.to_multiset()) == all.to_multiset() && forall|
            i: int,
            j: int,
        |
            #![trigger top[i], left[j]]
            0 <= i < top.len() && 0 <= j < left.len() ==> top[i].seconds >= left[j].seconds
}

/// The applications shown in a snapshot: the eight with the most seconds,
/// most first; among equal seconds the earlier one first.
pub fn top_apps(apps: Vec<crate::models::AppActivity>) -> (r: Vec<crate::models::AppActivity>)
    ensures
        r@.len() == (if apps@.len() < 8 {
            apps@.len()
        } else {
            8
        }),
        is_top_of(r@, apps@),
{
    broadcast use vstd::multiset::group_multiset_axioms;
    broadcast use vstd::seq_lib::to_multiset_remove;
    broadcast use vstd::seq_lib::to_multiset_build;

    let mut rest = apps;
    let ghost given = rest@;
    let mut out: Vec<crate::models::AppActivity> = Vec::new();
    proof {
        out@.to_multiset_ensures();
        vstd::multiset::lemma_multiset_empty_len(out@.to_multiset());
    }
    while out.len() < 8 && rest.len() > 0
        invariant
            out@.len() <= 8,
            out@.len() + rest@.len() == given.len(),
            sorted_by_seconds_desc(out@),
            out@.to_multiset().add(rest@.to_multiset()) == given.to_multiset(),
            forall|i: int, j: int|
                #![trigger out@[i], rest@[j]]
                0 <= i < out@.len() && 0 <= j < rest@.len() ==> out@[i].seconds
                    >= rest@[j].seconds,
        decreases rest@.len(),
    {
        let mut best: usize = 0;
        let mut k: usize = 1;
        while k < rest.len()
            invariant
                best < k <= rest@.len(),
                forall|j: int| 0 <= j < k ==> rest@[best as int].seconds >= #[trigger] rest@[j].seconds,
            decreases rest@.len() - k,
        {
            if rest[k].seconds > rest[best].seconds {
                best = k;
            }
            k += 1;
        }
        let ghost before_rest = rest@;
        let ghost before_out = out@;
        proof {
            before_rest.to_multiset_ensures();
            before_out.to_multiset_ensures();
        }
        let chosen = rest.remove(best);
        assert(rest@ == before_rest.remove(best as int));
        assert(rest@.to_multiset() == before_rest.to_multiset().remove(chosen));
        out.push(chosen);
        assert(out@ == before_out.push(chosen));
        assert(out@.to_multiset() == before_out.to_multiset().insert(chosen));
        assert(before_rest.to_multiset().contains(chosen)) by {
            assert(before_rest[best as int] == chosen);
            vstd::seq_lib::to_multiset_contains(before_rest, chosen);
            assert(before_rest.contains(chosen));
        }
        assert(out@.to_multiset().add(rest@.to_multiset()) =~= given.to_multiset());
        assert forall|i: int, j: int|
            #![trigger out@[i], rest@[j]]
            0 <= i < out@.len() && 0 <= j < rest@.len() implies out@[i].seconds
                >= rest@[j].seconds by {
            if j < best {
                assert(rest@[j] == before_rest[j]);
            } else {
                assert(rest@[j] == before_rest[j + 1]);
            }
            if i < before_out.len() {
                assert(out@[i] == before_out[i]);
            }
        }
        assert(sorted_by_seconds_desc(out@)) by {
            assert forall|i: int, j: int| 0 <= i < j < out@.len() implies out@[i].seconds
                >= out@[j].seconds by {
                if j == out@.len() - 1 && i < before_out.len() {
                    assert(before_rest[best as int] == chosen);
                    assert(before_out[i].seconds >= before_rest[best as int].seconds);
                }
            }
        }
    }
    assert(out@.to_multiset().add(rest@.to_multiset()) == apps@.to_multiset());
    out
}

/// At most the first `max` characters of `s`.
pub fn trim_to_chars(s: &str, max: usize) -> (r: String)
    ensures
        r@ == take_chars(s@, max as nat),
{
    crate::text::take_chars_text(s, max)
}

} // verus!
