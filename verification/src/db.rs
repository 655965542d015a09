//! What the stored phone reports of a window add up to, and how stored
//! integers are read back. The store itself is kept by the caller.

use vstd::prelude::*;
use crate::clock::Instant;
use crate::models::{PhoneActivityEvent, PhoneActivitySummary};
use crate::text::is_blank;

verus! {

/// A stored count read back: negative values become 0.
pub fn nonneg_u64(v: i64) -> (r: u64)
    ensures
        r == (if v < 0 {
            0
        } else {
            v as int
        }),
{
    if v < 0 {
        0
    } else {
        v as u64
    }
}

/// A stored count read back into 32 bits: negative values become 0, larger
/// ones keep their low 32 bits.
pub fn nonneg_u32(v: i64) -> (r: u32)
    ensures
        r == (if v < 0 {
            0i64
        } else {
            v
        }) as u32,
{
    let c: i64 = if v < 0 {
        0
    } else {
        v
    };
    c as u32
}

/// `a` comes before `b` in code-point order (which is the byte order of
/// their UTF-8 encodings, the order of `String`).
pub open spec fn lex_lt(a: Seq<char>, b: Seq<char>) -> bool
    decreases a.len(),
{
    if a.len() == 0 {
        b.len() > 0
    } else if b.len() == 0 {
        false
    } else if a[0] != b[0] {
        (a[0] as u32) < (b[0] as u32)
    } else {
        lex_lt(a.drop_first(), b.drop_first())
    }
}

proof fn lemma_lex_trans(a: Seq<char>, b: Seq<char>, c: Seq<char>)
    requires
        lex_lt(a, b),
        lex_lt(b, c),
    ensures
        lex_lt(a, c),
    decreases a.len(),
{
    if a.len() > 0 && b.len() > 0 && c.len() > 0 && a[0] == b[0] && b[0] == c[0] {
        lemma_lex_trans(a.drop_first(), b.drop_first(), c.drop_first());
    }
}

proof fn lemma_lex_total(a: Seq<char>, b: Seq<char>)
    ensures
        lex_lt(a, b) || lex_lt(b, a) || a == b,
    decreases a.len(),
{
    if a.len() == 0 && b.len() == 0 {
        assert(a =~= b);
    } else if a.len() == 0 || b.len() == 0 {
    } else if a[0] != b[0] {
        if (a[0] as u32) == (b[0] as u32) {
            vstd::utf8::char_u32_cast(a[0], a[0] as u32);
            vstd::utf8::char_u32_cast(b[0], b[0] as u32);
        }
    } else {
        lemma_lex_total(a.drop_first(), b.drop_first());
        if a.drop_first() == b.drop_first() {
            assert forall|i: int| 0 <= i < a.len() implies a[i] == b[i] by {
                if i > 0 {
                    assert(a[i] == a.drop_first()[i - 1]);
                    assert(b[i] == b.drop_first()[i - 1]);
                }
            }
            assert(a.drop_first().len() == b.drop_first().len());
            assert(a =~= b);
        }
    }
}

/// `v` is strictly increasing in code-point order.
pub open spec fn strictly_sorted(v: Seq<Seq<char>>) -> bool {
    forall|i: int, j: int| 0 <= i < j < v.len() ==> lex_lt(#[trigger] v[i], #[trigger] v[j])
}

/// Whether `a` comes before `b` in code-point order.
fn text_lt(a: &str, b: &str) -> (r: bool)
    ensures
        r == lex_lt(a@, b@),
{
    let x = crate::text::chars_of(a);
    let y = crate::text::chars_of(b);
    let mut i: usize = 0;
    assert(x@.skip(0) =~= x@);
    assert(y@.skip(0) =~= y@);
    while i < x.len() && i < y.len() && x[i] == y[i]
        invariant
            i <= x.len(),
            i <= y.len(),
            lex_lt(a@, b@) == lex_lt(x@.skip(i as int), y@.skip(i as int)),
            x@ == a@,
            y@ == b@,
        decreases x.len() - i,
    {
        assert(x@.skip(i as int).drop_first() =~= x@.skip(i + 1));
        assert(y@.skip(i as int).drop_first() =~= y@.skip(i + 1));
        i += 1;
    }
    if i == x.len() {
        i < y.len()
    } else if i == y.len() {
        false
    } else {
        (x[i] as u32) < (y[i] as u32)
    }
}

/// Inserts `t` into the strictly sorted `v` unless it is already there.
fn insert_sorted(v: &mut Vec<String>, t: String)
    requires
        strictly_sorted(crate::llm::texts(old(v)@)),
    ensures
        strictly_sorted(crate::llm::texts(final(v)@)),
        crate::llm::texts(final(v)@).to_set() == crate::llm::texts(old(v)@).to_set().insert(t@),
{
    let ghost s0 = crate::llm::texts(v@);
    let mut k: usize = 0;
    while k < v.len() && text_lt(v[k].as_str(), t.as_str())
        invariant
            k <= v@.len(),
            crate::llm::texts(v@) == s0,
            forall|j: int| 0 <= j < k ==> lex_lt(#[trigger] s0[j], t@),
        decreases v.len() - k,
    {
        k += 1;
    }
    if k < v.len() && crate::text::same_text(v[k].as_str(), t.as_str()) {
        assert(s0.to_set().insert(t@) =~= s0.to_set()) by {
            assert(s0[k as int] == t@);
        }
        return;
    }
    v.insert(k, t);
    proof {
        let s1 = crate::llm::texts(v@);
        assert(s1 =~= s0.insert(k as int, t@));
        if k < s0.len() {
            lemma_lex_total(s0[k as int], t@);
            assert(lex_lt(t@, s0[k as int]));
        }
        assert forall|i: int, j: int| 0 <= i < j < s1.len() implies lex_lt(
            #[trigger] s1[i],
            #[trigger] s1[j],
        ) by {
            if j < k {
            } else if j == k {
            } else if i == k {
                if j > k + 1 {
                    lemma_lex_trans(t@, s0[k as int], s0[j - 1]);
                }
            } else if i < k {
                if j - 1 > k {
                    assert(lex_lt(s0[i], s0[j - 1]));
                } else {
                    assert(lex_lt(s0[i], s0[j - 1]));
                }
            } else {
                assert(lex_lt(s0[i - 1], s0[j - 1]));
            }
        }
        assert(s1.to_set() =~= s0.to_set().insert(t@)) by {
            assert forall|x: Seq<char>| s1.to_set().contains(x) <==> s0.to_set().insert(t@).contains(x) by {
                if s1.contains(x) {
                    let i = choose|i: int| 0 <= i < s1.len() && s1[i] == x;
                    if i < k {
                        assert(s0[i] == x);
                    } else if i > k {
                        assert(s0[i - 1] == x);
                    }
                }
                if s0.contains(x) {
                    let i = choose|i: int| 0 <= i < s0.len() && s0[i] == x;
                    if i < k {
                        assert(s1[i] == x);
                    } else {
                        assert(s1[i + 1] == x);
                    }
                }
                if x == t@ {
                    assert(s1[k as int] == x);
                }
            }
        }
    }
}

/// The foreground applications that a report names (not blank).
pub open spec fn named_app(e: PhoneActivityEvent) -> Option<Seq<char>> {
    match e.foreground_app {
        Some(a) => if !is_blank(a@) {
            Some(a@)
        } else {
            None
        },
        None => None,
    }
}

/// The set of applications named by the reports.
pub open spec fn apps_named(rows: Seq<(String, PhoneActivityEvent)>) -> Set<Seq<char>>
    decreases rows.len(),
{
    if rows.len() == 0 {
        Set::empty()
    } else {
        match named_app(rows.last().1) {
            Some(a) => apps_named(rows.drop_last()).insert(a),
            None => apps_named(rows.drop_last()),
        }
    }
}

/// A phone counts as connected when its last report arrived at most two
/// minutes before `now`.
pub open spec fn recently_connected(last_seen: Seq<char>, now: Instant) -> bool {
    match crate::clock::rfc3339_instant(last_seen) {
        Some((s, n)) => crate::clock::whole_seconds(
            crate::clock::nanos_between(Instant { secs: s, nanos: n }, now),
        ) <= 120,
        None => false,
    }
}

/// Whether the phone counts as connected at `now`.
pub fn connected_recently(last_seen: &str, now: Instant) -> (r: bool)
    ensures
        r == recently_connected(last_seen@, now),
{
    match crate::clock::parse_rfc3339(last_seen) {
        Some(t) => crate::clock::seconds_between(t, now) <= 120,
        None => false,
    }
}

/// The summary of the reports received in a window (oldest first), given as
/// each report's arrival time stamp and content: the newest report's state,
/// how many reports arrived, and up to twelve of the applications they named,
/// in code-point order. Nothing when no report arrived.
pub fn summarize_phone_reports(rows: Vec<(String, PhoneActivityEvent)>, now: Instant) -> (r: Option<
    PhoneActivitySummary,
>)
    ensures
        rows@.len() == 0 <==> r is None,
        match r {
            Some(s) => {
                let (at, e) = rows@.last();
                &&& s.last_seen_at == at
                &&& s.connected_recently == recently_connected(at@, now)
                &&& s.device_name == e.device_name
                &&& s.interactive == e.interactive
                &&& s.unlocked == e.unlocked
                &&& s.foreground_app == e.foreground_app
                &&& s.foreground_package == e.foreground_package
                &&& s.session_seconds == e.session_seconds
                &&& s.last_interaction_seconds_ago == e.last_interaction_seconds_ago
                &&& s.clicks_1m == e.clicks_1m
                &&& s.scrolls_1m == e.scrolls_1m
                &&& s.app_switches_5m == e.app_switches_5m
                &&& s.pickups_20m == e.pickups_20m
                &&& s.phone_minutes_20m_bits == e.phone_minutes_20m_bits
                &&& s.longest_session_seconds_20m == e.longest_session_seconds_20m
                &&& s.samples_in_window == rows@.len()
                &&& exists|all: Seq<Seq<char>>|
                    #![trigger all.to_set()]
                    strictly_sorted(all) && all.to_set() == apps_named(rows@)
                        && crate::llm::texts(s.observed_apps@) == (if all.len() <= 12 {
                        all
                    } else {
                        all.take(12)
                    })
            },
            None => true,
        },
{
    let n = rows.len();
    let mut apps: Vec<String> = Vec::new();
    let mut i: usize = 0;
    assert(crate::llm::texts(apps@).to_set() =~= Set::empty());
    while i < n
        invariant
            i <= n == rows@.len(),
            strictly_sorted(crate::llm::texts(apps@)),
            crate::llm::texts(apps@).to_set() == apps_named(rows@.take(i as int)),
        decreases n - i,
    {
        assert(rows@.take(i + 1).drop_last() =~= rows@.take(i as int));
        let e = &rows[i].1;
        if let Some(a) = &e.foreground_app {
            if !crate::text::is_blank_text(a.as_str()) {
                insert_sorted(&mut apps, a.clone());
            }
        }
        i += 1;
    }
    assert(rows@.take(n as int) =~= rows@);
    if n == 0 {
        return None;
    }
    let ghost all = crate::llm::texts(apps@);
    let mut kept: Vec<String> = Vec::new();
    let mut k: usize = 0;
    while k < apps.len() && k < 12
        invariant
            k <= apps@.len(),
            k <= 12,
            crate::llm::texts(kept@) == all.take(k as int),
            all == crate::llm::texts(apps@),
        decreases apps.len() - k,
    {
        let ghost before = crate::llm::texts(kept@);
        kept.push(apps[k].clone());
        k += 1;
        assert(crate::llm::texts(kept@) =~= before.push(all[k - 1]));
        assert(all.take(k as int) =~= all.take(k - 1).push(all[k - 1]));
    }
    assert(all.len() <= 12 ==> all.take(k as int) =~= all);
    let mut rows = rows;
    let (at, e) = rows.pop().unwrap();
    let connected = connected_recently(at.as_str(), now);
    Some(
        PhoneActivitySummary {
            last_seen_at: at,
            connected_recently: connected,
            device_name: e.device_name,
            interactive: e.interactive,
            unlocked: e.unlocked,
            foreground_app: e.foreground_app,
            foreground_package: e.foreground_package,
            session_seconds: e.session_seconds,
            last_interaction_seconds_ago: e.last_interaction_seconds_ago,
            clicks_1m: e.clicks_1m,
            scrolls_1m: e.scrolls_1m,
            app_switches_5m: e.app_switches_5m,
            pickups_20m: e.pickups_20m,
            phone_minutes_20m_bits: e.phone_minutes_20m_bits,
            longest_session_seconds_20m: e.longest_session_seconds_20m,
            samples_in_window: n,
            observed_apps: kept,
        },
    )
}

} // verus!
