//! Random version-4 UUIDs: their bytes feed the sleep schedule and their
//! text forms the phone receiver's token.

use vstd::prelude::*;

verus! {

/// Calls `uuid::Uuid::new_v4` and hands out its sixteen bytes. The bytes are
/// random; the contract states only what the uuid source fixes in every
/// version-4 UUID: the version nibble 4 in byte 6 and the RFC 4122 variant
/// bits `10` at the top of byte 8.
#[verifier::external_body]
pub fn random_uuid_bytes() -> (b: [u8; 16])
    ensures
        b@.len() == 16,
        b@[6] / 16 == 4,
        b@[8] / 64 == 2,
{
    uuid::Uuid::new_v4().into_bytes()
}

/// The lower-case hexadecimal digit for `n < 16`.
pub open spec fn hex_digit(n: nat) -> char {
    if n < 10 {
        (48 + n) as char
    } else {
        (87 + n) as char
    }
}

/// The first `n` bytes of `b` in the hyphenated form `8-4-4-4-12`: two
/// lower-case hex digits per byte, and a hyphen before bytes 4, 6, 8 and 10.
pub open spec fn hyphenated_prefix(b: Seq<u8>, n: nat) -> Seq<char>
    decreases n,
{
    if n == 0 {
        seq![]
    } else {
        let k = (n - 1) as nat;
        let sep = if k == 4 || k == 6 || k == 8 || k == 10 {
            seq!['-']
        } else {
            seq![]
        };
        hyphenated_prefix(b, k) + sep + seq![
            hex_digit((b[k as int] / 16) as nat),
            hex_digit((b[k as int] % 16) as nat),
        ]
    }
}

/// The hyphenated text of a UUID (what its `Display` writes).
pub open spec fn hyphenated(b: Seq<u8>) -> Seq<char> {
    hyphenated_prefix(b, 16)
}

fn hex_char(n: u8) -> (c: char)
    requires
        n < 16,
    ensures
        c == hex_digit(n as nat),
{
    if n < 10 {
        (48u8 + n) as char
    } else {
        (87u8 + n) as char
    }
}

/// The hyphenated text of the UUID with bytes `b`.
pub fn hyphenated_text(b: &[u8; 16]) -> (s: String)
    ensures
        s@ == hyphenated(b@),
{
    let mut out: Vec<char> = Vec::new();
    let mut i: usize = 0;
    while i < 16
        invariant
            i <= 16,
            b@.len() == 16,
            out@ == hyphenated_prefix(b@, i as nat),
        decreases 16 - i,
    {
        if i == 4 || i == 6 || i == 8 || i == 10 {
            out.push('-');
        }
        let byte = b[i];
        out.push(hex_char(byte / 16));
        out.push(hex_char(byte % 16));
        i += 1;
        assert(out@ =~= hyphenated_prefix(b@, i as nat));
    }
    crate::text::string_of(&out)
}

proof fn lemma_hyphenated_prefix_len(b: Seq<u8>, n: nat)
    requires
        n <= b.len(),
    ensures
        hyphenated_prefix(b, n).len() == 2 * n + (if n > 10 {
            4nat
        } else if n > 8 {
            3nat
        } else if n > 6 {
            2nat
        } else if n > 4 {
            1nat
        } else {
            0nat
        }),
    decreases n,
{
    if n > 0 {
        lemma_hyphenated_prefix_len(b, (n - 1) as nat);
    }
}

/// A UUID's hyphenated text has 36 characters.
pub proof fn lemma_hyphenated_len(b: Seq<u8>)
    requires
        b.len() == 16,
    ensures
        hyphenated(b).len() == 36,
{
    lemma_hyphenated_prefix_len(b, 16);
}

} // verus!
