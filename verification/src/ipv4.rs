//! Dotted-decimal IPv4 addresses, as the network tools print them.

use vstd::prelude::*;
use crate::text::{all_digits, decimal, digit_char, digits_value, is_digit};

verus! {

/// One to three decimal digits without a leading zero, at most 255: the
/// form of each number of an address.
pub open spec fn canonical_octet(t: Seq<char>) -> bool {
    &&& 1 <= t.len() <= 3
    &&& all_digits(t)
    &&& (t.len() > 1 ==> t[0] != '0')
    &&& digits_value(t) <= 255
}

proof fn lemma_digit_char(d: nat)
    requires
        d < 10,
    ensures
        is_digit(digit_char(d)),
        (digit_char(d) as u32) == 48 + d,
        digit_char(d) != '0' <==> d != 0,
{
}

proof fn lemma_decimal_octet(n: nat)
    requires
        n <= 255,
    ensures
        canonical_octet(decimal(n)),
        digits_value(decimal(n)) == n,
{
    reveal_with_fuel(decimal, 3);
    reveal_with_fuel(digits_value, 4);
    if n < 10 {
        lemma_digit_char(n);
    } else if n < 100 {
        lemma_digit_char(n / 10);
        lemma_digit_char(n % 10);
    } else {
        lemma_digit_char(n / 100);
        lemma_digit_char((n / 10) % 10);
        lemma_digit_char(n % 10);
    }
}

proof fn lemma_char_of_digit(c: char)
    requires
        is_digit(c),
    ensures
        digit_char(((c as u32) - 48) as nat) == c,
{
    vstd::utf8::char_u32_cast(c, c as u32);
}

proof fn lemma_octet_decimal(t: Seq<char>)
    requires
        canonical_octet(t),
    ensures
        decimal(digits_value(t)) == t,
{
    reveal_with_fuel(decimal, 3);
    reveal_with_fuel(digits_value, 4);
    let n = digits_value(t);
    lemma_char_of_digit(t[0]);
    if t.len() == 1 {
        assert(decimal(n) =~= t);
    } else if t.len() == 2 {
        lemma_char_of_digit(t[1]);
        assert(t.drop_last().drop_last().len() == 0);
        assert(decimal(n) =~= t);
    } else {
        lemma_char_of_digit(t[1]);
        lemma_char_of_digit(t[2]);
        assert(decimal(n) =~= t);
    }
}

/// The dotted-decimal text of the address `o`.
pub open spec fn ipv4_text(o: [u8; 4]) -> Seq<char> {
    decimal(o@[0] as nat) + seq!['.'] + decimal(o@[1] as nat) + seq!['.'] + decimal(o@[2] as nat)
        + seq!['.'] + decimal(o@[3] as nat)
}

/// The address whose dotted-decimal text is `s`, when there is one.
pub open spec fn ipv4_of(s: Seq<char>) -> Option<[u8; 4]> {
    if exists|o: [u8; 4]| #[trigger] ipv4_text(o) == s {
        Some(choose|o: [u8; 4]| #[trigger] ipv4_text(o) == s)
    } else {
        None
    }
}

/// Where the dots of an address text stand, and what lies between them.
proof fn lemma_address_shape(o: [u8; 4])
    ensures
        ({
            let s = ipv4_text(o);
            let a = decimal(o@[0] as nat).len() as int;
            let b = a + 1 + decimal(o@[1] as nat).len();
            let c = b + 1 + decimal(o@[2] as nat).len();
            &&& 0 < a < b - 1 && b < c - 1 && c < s.len() - 1
            &&& s[a] == '.' && s[b] == '.' && s[c] == '.'
            &&& forall|k: int|
                0 <= k < s.len() && k != a && k != b && k != c ==> is_digit(#[trigger] s[k])
            &&& dots_at(s, a, b, c)
            &&& s.subrange(0, a) == decimal(o@[0] as nat)
            &&& s.subrange(a + 1, b) == decimal(o@[1] as nat)
            &&& s.subrange(b + 1, c) == decimal(o@[2] as nat)
            &&& s.subrange(c + 1, s.len() as int) == decimal(o@[3] as nat)
        }),
{
    let d0 = decimal(o@[0] as nat);
    let d1 = decimal(o@[1] as nat);
    let d2 = decimal(o@[2] as nat);
    let d3 = decimal(o@[3] as nat);
    lemma_decimal_octet(o@[0] as nat);
    lemma_decimal_octet(o@[1] as nat);
    lemma_decimal_octet(o@[2] as nat);
    lemma_decimal_octet(o@[3] as nat);
    let s = ipv4_text(o);
    let a = d0.len() as int;
    let b = a + 1 + d1.len();
    let c = b + 1 + d2.len();
    assert forall|k: int| 0 <= k < s.len() && k != a && k != b && k != c implies is_digit(
        #[trigger] s[k],
    ) by {
        if k < a {
            assert(s[k] == d0[k]);
        } else if k < b {
            assert(s[k] == d1[k - a - 1]);
        } else if k < c {
            assert(s[k] == d2[k - b - 1]);
        } else {
            assert(s[k] == d3[k - c - 1]);
        }
    }
    assert(s.subrange(0, a) =~= d0);
    assert(s.subrange(a + 1, b) =~= d1);
    assert(s.subrange(b + 1, c) =~= d2);
    assert(s.subrange(c + 1, s.len() as int) =~= d3);
}

/// Different addresses have different texts.
proof fn lemma_address_text_injective(o: [u8; 4], p: [u8; 4])
    requires
        ipv4_text(o) == ipv4_text(p),
    ensures
        o == p,
{
    lemma_address_shape(o);
    lemma_address_shape(p);
    let s = ipv4_text(o);
    let a = decimal(o@[0] as nat).len() as int;
    let a2 = decimal(p@[0] as nat).len() as int;
    assert(a == a2) by {
        if a < a2 {
            assert(is_digit(s[a]));
        } else if a2 < a {
            assert(is_digit(s[a2]));
        }
    }
    let b = a + 1 + decimal(o@[1] as nat).len();
    let b2 = a2 + 1 + decimal(p@[1] as nat).len();
    assert(b == b2) by {
        if b < b2 {
            assert(is_digit(s[b]));
        } else if b2 < b {
            assert(is_digit(s[b2]));
        }
    }
    let c = b + 1 + decimal(o@[2] as nat).len();
    let c2 = b2 + 1 + decimal(p@[2] as nat).len();
    assert(c == c2) by {
        if c < c2 {
            assert(is_digit(s[c]));
        } else if c2 < c {
            assert(is_digit(s[c2]));
        }
    }
    lemma_decimal_octet(o@[0] as nat);
    lemma_decimal_octet(o@[1] as nat);
    lemma_decimal_octet(o@[2] as nat);
    lemma_decimal_octet(o@[3] as nat);
    lemma_decimal_octet(p@[0] as nat);
    lemma_decimal_octet(p@[1] as nat);
    lemma_decimal_octet(p@[2] as nat);
    lemma_decimal_octet(p@[3] as nat);
    assert(o@ =~= p@);
    assert(o =~= p);
}

/// The first `.` of `v` at or after `from`.
fn next_dot(v: &Vec<char>, from: usize) -> (r: Option<usize>)
    requires
        from <= v@.len(),
    ensures
        match r {
            Some(j) => from <= j < v@.len() && v@[j as int] == '.' && forall|k: int|
                from <= k < j ==> v@[k] != '.',
            None => forall|k: int| from <= k < v@.len() ==> v@[k] != '.',
        },
{
    let mut j = from;
    while j < v.len()
        invariant
            from <= j <= v@.len(),
            forall|k: int| from <= k < j ==> v@[k] != '.',
        decreases v.len() - j,
    {
        if v[j] == '.' {
            return Some(j);
        }
        j += 1;
    }
    None
}

/// The number that `v[lo..hi]` spells, when it has the form of one number
/// of an address.
fn octet_at(v: &Vec<char>, lo: usize, hi: usize) -> (r: Option<u8>)
    requires
        lo <= hi <= v@.len(),
    ensures
        match r {
            Some(x) => canonical_octet(v@.subrange(lo as int, hi as int)) && x == digits_value(
                v@.subrange(lo as int, hi as int),
            ),
            None => !canonical_octet(v@.subrange(lo as int, hi as int)),
        },
{
    let ghost t = v@.subrange(lo as int, hi as int);
    if hi - lo == 0 || hi - lo > 3 {
        return None;
    }
    let mut value: u32 = 0;
    let mut i = lo;
    while i < hi
        invariant
            lo <= i <= hi <= v@.len(),
            hi - lo <= 3,
            t == v@.subrange(lo as int, hi as int),
            forall|k: int| 0 <= k < i - lo ==> is_digit(#[trigger] t[k]),
            value == digits_value(v@.subrange(lo as int, i as int)),
            value < 1000,
            i - lo == 0 ==> value == 0,
            i - lo == 1 ==> value < 10,
            i - lo == 2 ==> value < 100,
        decreases hi - i,
    {
        let c = v[i] as u32;
        if c < 48 || c > 57 {
            assert(!is_digit(t[i - lo]));
            return None;
        }
        assert(v@.subrange(lo as int, i + 1).drop_last() =~= v@.subrange(lo as int, i as int));
        value = value * 10 + (c - 48);
        i += 1;
    }
    assert(v@.subrange(lo as int, hi as int) =~= t);
    if hi - lo > 1 && v[lo] == '0' {
        return None;
    }
    if value > 255 {
        return None;
    }
    Some(value as u8)
}

/// `a`, `b` and `c` are the positions of the dots of `t`, and it has no other.
pub open spec fn dots_at(t: Seq<char>, a: int, b: int, c: int) -> bool {
    &&& 0 <= a < b < c < t.len()
    &&& t[a] == '.' && t[b] == '.' && t[c] == '.'
    &&& forall|k: int| 0 <= k < t.len() && k != a && k != b && k != c ==> #[trigger] t[k] != '.'
}

proof fn lemma_dots_unique(t: Seq<char>, a: int, b: int, c: int, a2: int, b2: int, c2: int)
    requires
        dots_at(t, a, b, c),
        dots_at(t, a2, b2, c2),
    ensures
        a == a2 && b == b2 && c == c2,
{
    assert(t[a] == '.' && t[a2] == '.');
    assert(t[b] == '.' && t[b2] == '.');
    assert(t[c] == '.' && t[c2] == '.');
}

/// The positions of the three dots of `v`, when it has exactly three.
fn three_dots(v: &Vec<char>) -> (r: Option<(usize, usize, usize)>)
    ensures
        match r {
            Some((a, b, c)) => dots_at(v@, a as int, b as int, c as int),
            None => forall|a: int, b: int, c: int| !#[trigger] dots_at(v@, a, b, c),
        },
{
    let ghost t = v@;
    let n = v.len();
    assert(n == t.len());
    let a = match next_dot(v, 0) {
        Some(a) => a,
        None => {
            assert forall|a: int, b: int, c: int| !#[trigger] dots_at(t, a, b, c) by {
                if dots_at(t, a, b, c) {
                    assert(t[a] == '.');
                }
            }
            return None;
        },
    };
    let b = match next_dot(v, a + 1) {
        Some(b) => b,
        None => {
            assert forall|a2: int, b2: int, c2: int| !#[trigger] dots_at(t, a2, b2, c2) by {
                if dots_at(t, a2, b2, c2) {
                    assert(t[a2] == '.' && t[b2] == '.');
                }
            }
            return None;
        },
    };
    let c = match next_dot(v, b + 1) {
        Some(c) => c,
        None => {
            assert forall|a2: int, b2: int, c2: int| !#[trigger] dots_at(t, a2, b2, c2) by {
                if dots_at(t, a2, b2, c2) {
                    assert(t[a2] == '.' && t[b2] == '.' && t[c2] == '.');
                }
            }
            return None;
        },
    };
    match next_dot(v, c + 1) {
        None => Some((a, b, c)),
        Some(d) => {
            assert forall|a2: int, b2: int, c2: int| !#[trigger] dots_at(t, a2, b2, c2) by {
                if dots_at(t, a2, b2, c2) {
                    assert(t[a2] == '.' && t[b2] == '.' && t[c2] == '.' && t[d as int] == '.');
                }
            }
            None
        },
    }
}

/// The address that `s` spells in dotted-decimal form.
pub fn parse_ipv4(s: &str) -> (r: Option<[u8; 4]>)
    ensures
        r == ipv4_of(s@),
{
    let v = crate::text::chars_of(s);
    let ghost t = v@;
    let n = v.len();
    let (a, b, c) = match three_dots(&v) {
        Some(d) => d,
        None => {
            assert forall|o: [u8; 4]| #[trigger] ipv4_text(o) != t by {
                if ipv4_text(o) == t {
                    lemma_address_shape(o);
                }
            }
            return None;
        },
    };
    let x0 = octet_at(&v, 0, a);
    let x1 = octet_at(&v, a + 1, b);
    let x2 = octet_at(&v, b + 1, c);
    let x3 = octet_at(&v, c + 1, n);
    if let (Some(y0), Some(y1), Some(y2), Some(y3)) = (x0, x1, x2, x3) {
        let o = [y0, y1, y2, y3];
        proof {
            lemma_octet_decimal(t.subrange(0, a as int));
            lemma_octet_decimal(t.subrange(a + 1, b as int));
            lemma_octet_decimal(t.subrange(b + 1, c as int));
            lemma_octet_decimal(t.subrange(c + 1, n as int));
            assert(ipv4_text(o) =~= t);
            let p = choose|p: [u8; 4]| #[trigger] ipv4_text(p) == t;
            lemma_address_text_injective(o, p);
        }
        return Some(o);
    }
    proof {
        assert forall|o: [u8; 4]| #[trigger] ipv4_text(o) != t by {
            if ipv4_text(o) == t {
                lemma_address_shape(o);
                let a2 = decimal(o@[0] as nat).len() as int;
                let b2 = a2 + 1 + decimal(o@[1] as nat).len();
                let c2 = b2 + 1 + decimal(o@[2] as nat).len();
                lemma_dots_unique(t, a as int, b as int, c as int, a2, b2, c2);
                lemma_decimal_octet(o@[0] as nat);
                lemma_decimal_octet(o@[1] as nat);
                lemma_decimal_octet(o@[2] as nat);
                lemma_decimal_octet(o@[3] as nat);
            }
        }
    }
    None
}

} // verus!
