//! The standard base64 alphabet: bytes as text and back.

use base64::engine::general_purpose::STANDARD;
use base64::Engine;
use vstd::prelude::*;

use crate::crypto::opt_bytes;

verus! {

/// The character that stands for six bits.
pub open spec fn base64_char(v: int) -> char {
    if v < 26 {
        (('A' as u32) + v) as char
    } else if v < 52 {
        (('a' as u32) + v - 26) as char
    } else if v < 62 {
        (('0' as u32) + v - 52) as char
    } else if v == 62 {
        '+'
    } else {
        '/'
    }
}

/// The byte at a position, zero where there is none.
pub open spec fn byte_at(b: Seq<u8>, i: int) -> int {
    if i < b.len() {
        b[i] as int
    } else {
        0
    }
}

/// The `k`-th six bits of the first three bytes.
pub open spec fn sextet(b: Seq<u8>, k: int) -> int {
    if k == 0 {
        byte_at(b, 0) / 4
    } else if k == 1 {
        byte_at(b, 0) % 4 * 16 + byte_at(b, 1) / 16
    } else if k == 2 {
        byte_at(b, 1) % 16 * 4 + byte_at(b, 2) / 64
    } else {
        byte_at(b, 2) % 64
    }
}

/// The four characters of the first three bytes; `=` where there are fewer than three.
pub open spec fn base64_group(b: Seq<u8>) -> Seq<char> {
    seq![
        base64_char(sextet(b, 0)),
        base64_char(sextet(b, 1)),
        if b.len() > 1 {
            base64_char(sextet(b, 2))
        } else {
            '='
        },
        if b.len() > 2 {
            base64_char(sextet(b, 3))
        } else {
            '='
        },
    ]
}

/// The standard base64 text of some bytes: four characters of six bits for every three
/// bytes, and a shorter last group filled up with `=`.
pub open spec fn base64_text(b: Seq<u8>) -> Seq<char>
    decreases b.len(),
{
    if b.len() == 0 {
        Seq::empty()
    } else if b.len() <= 3 {
        base64_group(b)
    } else {
        base64_group(b) + base64_text(b.skip(3))
    }
}

/// The bytes that a text is the base64 of, `None` where it is that of none.
pub open spec fn base64_bytes(text: Seq<char>) -> Option<Seq<u8>> {
    if exists|b: Seq<u8>| #[trigger] base64_text(b) == text {
        Some(choose|b: Seq<u8>| #[trigger] base64_text(b) == text)
    } else {
        None
    }
}

/// The length of the base64 text of `n` bytes.
pub open spec fn base64_len(n: int) -> int {
    (n + 2) / 3 * 4
}

/// `encode` of base64's `STANDARD` engine. The result is the standard base64 text of
/// the bytes, with padding.
#[verifier::external_body]
pub(crate) fn to_base64(bytes: &[u8]) -> (r: String)
    requires
        base64_len(bytes@.len() as int) <= isize::MAX,
    ensures
        r@ == base64_text(bytes@),
{
    STANDARD.encode(bytes)
}

/// `decode` of base64's `STANDARD` engine. It accepts exactly the texts that `encode` of
/// the same engine gives, with their padding and with no bits left over, and gives the
/// bytes that they are of.
#[verifier::external_body]
pub(crate) fn from_base64(text: &str) -> (r: Option<Vec<u8>>)
    ensures
        opt_bytes(r) == base64_bytes(text@),
{
    STANDARD.decode(text).ok()
}

/// No six bits are written as the padding, and no two as the same character.
proof fn lemma_base64_char(v: int, w: int)
    requires
        0 <= v < 64,
        0 <= w < 64,
    ensures
        base64_char(v) != '=',
        base64_char(v) == base64_char(w) ==> v == w,
{
}

/// The base64 text of some bytes has four characters for every three bytes begun, and no
/// padding where three divides their number.
pub proof fn law_base64_shape(b: Seq<u8>)
    ensures
        base64_text(b).len() == base64_len(b.len() as int),
        b.len() % 3 == 0 ==> !base64_text(b).contains('='),
    decreases b.len(),
{
    let t = base64_text(b);
    if b.len() > 3 {
        law_base64_shape(b.skip(3));
    }
    if b.len() >= 3 && b.len() % 3 == 0 {
        lemma_base64_char(sextet(b, 0), 0);
        lemma_base64_char(sextet(b, 1), 0);
        lemma_base64_char(sextet(b, 2), 0);
        lemma_base64_char(sextet(b, 3), 0);
        assert forall|i: int| 0 <= i < t.len() implies t[i] != '=' by {
            if i >= 4 {
                let rest = base64_text(b.skip(3));
                assert(t[i] == rest[i - 4]);
                assert(rest.contains(rest[i - 4]));
            }
        }
    }
}

/// A group of characters gives its bytes back.
proof fn lemma_group_injective(a: Seq<u8>, b: Seq<u8>)
    requires
        a.len() > 0,
        b.len() > 0,
        base64_group(a) == base64_group(b),
    ensures
        byte_at(a, 0) == byte_at(b, 0),
        byte_at(a, 1) == byte_at(b, 1),
        byte_at(a, 2) == byte_at(b, 2),
        a.len() == b.len() || (a.len() >= 3 && b.len() >= 3),
{
    let s = base64_group(a);
    let t = base64_group(b);
    assert(s[0] == t[0] && s[1] == t[1] && s[2] == t[2] && s[3] == t[3]);
    assert forall|k: int| 0 <= k < 4 implies 0 <= #[trigger] sextet(a, k) < 64 && 0 <= sextet(b, k)
        < 64 by {}
    lemma_base64_char(sextet(a, 0), sextet(b, 0));
    lemma_base64_char(sextet(a, 1), sextet(b, 1));
    lemma_base64_char(sextet(a, 2), sextet(b, 2));
    lemma_base64_char(sextet(b, 2), sextet(a, 2));
    lemma_base64_char(sextet(a, 3), sextet(b, 3));
    lemma_base64_char(sextet(b, 3), sextet(a, 3));
    assert(a.len() > 1 <==> b.len() > 1);
    assert(a.len() > 2 <==> b.len() > 2);
}

proof fn lemma_base64_injective(a: Seq<u8>, b: Seq<u8>)
    requires
        base64_text(a) == base64_text(b),
    ensures
        a == b,
    decreases a.len(),
{
    let t = base64_text(a);
    law_base64_shape(a);
    law_base64_shape(b);
    if a.len() > 0 {
        assert(t.take(4) =~= base64_group(a));
        assert(t.take(4) =~= base64_group(b));
        lemma_group_injective(a, b);
        if a.len() > 3 {
            assert(t.skip(4) =~= base64_text(a.skip(3)));
            assert(t.skip(4) =~= base64_text(b.skip(3)));
            lemma_base64_injective(a.skip(3), b.skip(3));
            assert(a.skip(3).len() == b.skip(3).len());
        }
        assert forall|i: int| 0 <= i < a.len() implies a[i] == b[i] by {
            if i >= 3 {
                assert(a.skip(3)[i - 3] == b.skip(3)[i - 3]);
            } else {
                assert(byte_at(a, i) == byte_at(b, i));
            }
        }
    }
    assert(a =~= b);
}

/// Reading the base64 text of some bytes gives these bytes.
pub proof fn law_base64_round_trip(b: Seq<u8>)
    ensures
        base64_bytes(base64_text(b)) == Some(b),
{
    let t = base64_text(b);
    let c = choose|c: Seq<u8>| #[trigger] base64_text(c) == t;
    assert(base64_text(b) == t);
    lemma_base64_injective(c, b);
}

} // verus!
