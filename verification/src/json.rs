//! A JSON document as plain values, and the lookups the companion performs on
//! the replies of screenpipe and of the language-model services.

use vstd::prelude::*;
use crate::text::{chars_of, digits_value, all_digits};

verus! {

/// A JSON number as the document held it.
pub enum JsonNumber {
    /// A non-negative integer.
    PosInt(u64),
    /// A negative integer.
    NegInt(i64),
    /// Any other number, kept as the bits of its IEEE-754 double.
    Float(u64),
}

/// A JSON value. Object members keep their document order and each key
/// occurs once.
pub enum JsonValue {
    Null,
    Bool(bool),
    Number(JsonNumber),
    Text(String),
    Array(Vec<JsonValue>),
    Object(Vec<(String, JsonValue)>),
}

/// The value of the first member named `key`.
pub open spec fn lookup(members: Seq<(String, JsonValue)>, key: Seq<char>) -> Option<JsonValue>
    decreases members.len(),
{
    if members.len() == 0 {
        None
    } else if members[0].0@ == key {
        Some(members[0].1)
    } else {
        lookup(members.drop_first(), key)
    }
}

/// `v[key]` for an object, nothing for any other value.
pub open spec fn get(v: JsonValue, key: Seq<char>) -> Option<JsonValue> {
    match v {
        JsonValue::Object(members) => lookup(members@, key),
        _ => None,
    }
}

/// `v[i]` for an array holding an element at `i`, nothing otherwise.
pub open spec fn at(v: JsonValue, i: int) -> Option<JsonValue> {
    match v {
        JsonValue::Array(items) => if 0 <= i < items@.len() {
            Some(items@[i])
        } else {
            None
        },
        _ => None,
    }
}

/// An array index written in a JSON pointer: decimal digits without a sign
/// and without a leading zero (but `0` itself), that fit a `usize`.
pub open spec fn pointer_index(t: Seq<char>) -> Option<int> {
    if t.len() > 0 && all_digits(t) && (t.len() == 1 || t[0] != '0') && digits_value(t)
        <= usize::MAX {
        Some(digits_value(t) as int)
    } else {
        None
    }
}

/// One reference token of a JSON pointer applied to `v`: a member name for an
/// object, an index for an array.
pub open spec fn pointer_step(v: JsonValue, token: Seq<char>) -> Option<JsonValue> {
    match v {
        JsonValue::Object(_) => get(v, token),
        JsonValue::Array(_) => match pointer_index(token) {
            Some(i) => at(v, i),
            None => None,
        },
        _ => None,
    }
}

/// The value that the JSON pointer made of `tokens` designates in `v`.
pub open spec fn pointer(v: JsonValue, tokens: Seq<Seq<char>>) -> Option<JsonValue>
    decreases tokens.len(),
{
    if tokens.len() == 0 {
        Some(v)
    } else {
        match pointer_step(v, tokens[0]) {
            Some(w) => pointer(w, tokens.drop_first()),
            None => None,
        }
    }
}

/// The text of a string value.
pub open spec fn as_str(v: JsonValue) -> Option<Seq<char>> {
    match v {
        JsonValue::Text(s) => Some(s@),
        _ => None,
    }
}

/// The truth value of a boolean.
pub open spec fn as_bool(v: JsonValue) -> Option<bool> {
    match v {
        JsonValue::Bool(b) => Some(b),
        _ => None,
    }
}

/// A non-negative integer that fits a `u64`.
pub open spec fn as_u64(v: JsonValue) -> Option<u64> {
    match v {
        JsonValue::Number(JsonNumber::PosInt(n)) => Some(n),
        _ => None,
    }
}

/// `Some(*r)` for `Some(r)`: an optional reference seen as an optional value.
pub open spec fn deref_opt(r: Option<&JsonValue>) -> Option<JsonValue> {
    match r {
        Some(x) => Some(*x),
        None => None,
    }
}

/// The tokens of a pointer given as string slices.
pub open spec fn tokens_view(tokens: Seq<&str>) -> Seq<Seq<char>> {
    tokens.map_values(|t: &str| t@)
}

/// The member of `v` named `key`, when `v` is an object that has one.
pub fn member<'a>(v: &'a JsonValue, key: &str) -> (r: Option<&'a JsonValue>)
    ensures
        deref_opt(r) == get(*v, key@),
{
    match v {
        JsonValue::Object(members) => {
            let mut i: usize = 0;
            assert(members@.skip(0) =~= members@);
            assert(get(*v, key@) == lookup(members@, key@));
            while i < members.len()
                invariant
                    i <= members@.len(),
                    get(*v, key@) == lookup(members@, key@),
                    lookup(members@, key@) == lookup(members@.skip(i as int), key@),
                decreases members.len() - i,
            {
                let ghost rest = members@.skip(i as int);
                assert(rest.drop_first() =~= members@.skip(i + 1));
                assert(rest[0] == members@[i as int]);
                if crate::text::same_text(members[i].0.as_str(), key) {
                    assert(lookup(rest, key@) == Some(rest[0].1));
                    return Some(&members[i].1);
                }
                i += 1;
            }
            assert(members@.skip(i as int).len() == 0);
            None
        },
        _ => None,
    }
}

/// The element of `v` at index `i`, when `v` is an array that has one.
pub fn element<'a>(v: &'a JsonValue, i: usize) -> (r: Option<&'a JsonValue>)
    ensures
        deref_opt(r) == at(*v, i as int),
{
    match v {
        JsonValue::Array(items) => if i < items.len() {
            Some(&items[i])
        } else {
            None
        },
        _ => None,
    }
}

proof fn lemma_digits_value_push(t: Seq<char>, c: char)
    ensures
        digits_value(t.push(c)) == digits_value(t) * 10 + ((c as u32) - 48) as nat,
{
    assert(t.push(c).drop_last() =~= t);
}

/// The array index that the pointer token `t` denotes.
pub fn parse_pointer_index(t: &str) -> (r: Option<usize>)
    ensures
        match r {
            Some(i) => pointer_index(t@) == Some(i as int),
            None => pointer_index(t@) == None::<int>,
        },
{
    let v = chars_of(t);
    if v.len() == 0 {
        return None;
    }
    if v.len() > 1 && v[0] == '0' {
        return None;
    }
    let mut value: usize = 0;
    let mut i: usize = 0;
    while i < v.len()
        invariant
            i <= v.len(),
            v@ == t@,
            forall|k: int| 0 <= k < i ==> 48 <= #[trigger] (v@[k] as u32) <= 57,
            value == digits_value(v@.take(i as int)),
        decreases v.len() - i,
    {
        let c = v[i];
        let u = c as u32;
        if u < 48 || u > 57 {
            assert(!all_digits(t@)) by {
                assert(!(48 <= (t@[i as int] as u32) <= 57));
            }
            return None;
        }
        let d = (u - 48) as usize;
        proof {
            lemma_digits_value_push(v@.take(i as int), c);
            assert(v@.take(i + 1) =~= v@.take(i as int).push(c));
        }
        if value > (usize::MAX - d) / 10 {
            proof {
                assert(digits_value(v@.take(i + 1)) > usize::MAX);
                if all_digits(v@) {
                    lemma_digits_value_prefix_bound(v@, i + 1);
                }
            }
            return None;
        }
        value = value * 10 + d;
        i += 1;
    }
    assert(v@.take(v.len() as int) =~= v@);
    Some(value)
}

proof fn lemma_digits_value_prefix_bound(t: Seq<char>, n: int)
    requires
        0 <= n <= t.len(),
        all_digits(t),
    ensures
        digits_value(t) >= digits_value(t.take(n)),
    decreases t.len() - n,
{
    if n < t.len() {
        lemma_digits_value_prefix_bound(t, n + 1);
        assert(t.take(n + 1).drop_last() =~= t.take(n));
        assert(48 <= (t[n] as u32) <= 57);
    } else {
        assert(t.take(n) =~= t);
    }
}

/// The value that the pointer made of `tokens` designates in `v`.
pub fn pointer_lookup<'a>(v: &'a JsonValue, tokens: &[&str]) -> (r: Option<&'a JsonValue>)
    ensures
        deref_opt(r) == pointer(*v, tokens_view(tokens@)),
{
    let ghost toks = tokens_view(tokens@);
    let mut cur: &JsonValue = v;
    let mut i: usize = 0;
    assert(toks.skip(0) =~= toks);
    while i < tokens.len()
        invariant
            i <= tokens@.len(),
            toks == tokens_view(tokens@),
            pointer(*v, toks) == pointer(*cur, toks.skip(i as int)),
        decreases tokens.len() - i,
    {
        let ghost rest = toks.skip(i as int);
        assert(rest.drop_first() =~= toks.skip(i + 1));
        assert(rest[0] == tokens@[i as int]@);
        let token = tokens[i];
        let next = match cur {
            JsonValue::Object(_) => member(cur, token),
            JsonValue::Array(_) => match parse_pointer_index(token) {
                Some(k) => element(cur, k),
                None => None,
            },
            _ => None,
        };
        match next {
            Some(w) => {
                cur = w;
            },
            None => {
                return None;
            },
        }
        i += 1;
    }
    Some(cur)
}

/// The text of `v` when it is a string.
pub fn string_value<'a>(v: &'a JsonValue) -> (r: Option<&'a String>)
    ensures
        match r {
            Some(s) => as_str(*v) == Some(s@),
            None => as_str(*v) == None::<Seq<char>>,
        },
{
    match v {
        JsonValue::Text(s) => Some(s),
        _ => None,
    }
}

/// The truth value of `v` when it is a boolean.
pub fn bool_value(v: &JsonValue) -> (r: Option<bool>)
    ensures
        r == as_bool(*v),
{
    match v {
        JsonValue::Bool(b) => Some(*b),
        _ => None,
    }
}

/// `v` as a `u64` when it is a non-negative integer.
pub fn u64_value(v: &JsonValue) -> (r: Option<u64>)
    ensures
        r == as_u64(*v),
{
    match v {
        JsonValue::Number(JsonNumber::PosInt(n)) => Some(*n),
        _ => None,
    }
}

} // verus!
