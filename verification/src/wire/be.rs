//! Big-endian integers and byte-string helpers.

use vstd::prelude::*;

verus! {

/// The two bytes of `x`, most significant first.
pub open spec fn be16(x: u16) -> Seq<u8> {
    seq![(x / 256) as u8, (x % 256) as u8]
}

/// The four bytes of `x`, most significant first.
pub open spec fn be32(x: u32) -> Seq<u8> {
    seq![
        (x / 0x100_0000) as u8,
        (x / 0x1_0000 % 256) as u8,
        (x / 256 % 256) as u8,
        (x % 256) as u8,
    ]
}

/// The value of two bytes, most significant first.
pub open spec fn from_be16(a: u8, b: u8) -> u16 {
    (a * 256 + b) as u16
}

/// The value of four bytes, most significant first.
pub open spec fn from_be32(a: u8, b: u8, c: u8, d: u8) -> u32 {
    (a * 0x100_0000 + b * 0x1_0000 + c * 256 + d) as u32
}

/// Reading back the bytes of a 16-bit integer gives the integer.
pub proof fn law_be16_round_trip(x: u16)
    ensures
        be16(x).len() == 2,
        from_be16(be16(x)[0], be16(x)[1]) == x,
{
}

/// Reading back the bytes of a 32-bit integer gives the integer.
pub proof fn law_be32_round_trip(x: u32)
    ensures
        be32(x).len() == 4,
        from_be32(be32(x)[0], be32(x)[1], be32(x)[2], be32(x)[3]) == x,
{
}

/// Writing out the value of two bytes gives the bytes.
pub proof fn law_from_be16_round_trip(a: u8, b: u8)
    ensures
        be16(from_be16(a, b)) == seq![a, b],
{
}

/// Writing out the value of four bytes gives the bytes.
pub proof fn law_from_be32_round_trip(a: u8, b: u8, c: u8, d: u8)
    ensures
        be32(from_be32(a, b, c, d)) == seq![a, b, c, d],
{
    let x = from_be32(a, b, c, d);
    assert(x / 0x100_0000 == a);
    assert(x / 0x1_0000 == a * 256 + b);
    assert(x / 256 == a * 0x1_0000 + b * 256 + c);
    assert((a * 256 + b) % 256 == b);
    assert((a * 0x1_0000 + b * 256 + c) % 256 == c);
    assert(x % 256 == d);
}

pub fn read_be16(a: u8, b: u8) -> (r: u16)
    ensures
        r == from_be16(a, b),
{
    a as u16 * 256 + b as u16
}

pub fn read_be32(a: u8, b: u8, c: u8, d: u8) -> (r: u32)
    ensures
        r == from_be32(a, b, c, d),
{
    a as u32 * 0x100_0000 + b as u32 * 0x1_0000 + c as u32 * 256 + d as u32
}

pub fn push_be16(out: &mut Vec<u8>, x: u16)
    ensures
        final(out)@ == old(out)@ + be16(x),
{
    out.push((x / 256) as u8);
    out.push((x % 256) as u8);
    assert(out@ =~= old(out)@ + be16(x));
}

pub fn push_be32(out: &mut Vec<u8>, x: u32)
    ensures
        final(out)@ == old(out)@ + be32(x),
{
    out.push((x / 0x100_0000) as u8);
    out.push((x / 0x1_0000 % 256) as u8);
    out.push((x / 256 % 256) as u8);
    out.push((x % 256) as u8);
    assert(out@ =~= old(out)@ + be32(x));
}

pub fn push_bytes(out: &mut Vec<u8>, bytes: &[u8])
    ensures
        final(out)@ == old(out)@ + bytes@,
{
    out.extend_from_slice(bytes);
    assert(out@ =~= old(out)@ + bytes@);
}

/// The bytes of `bytes` from `from` up to `to`.
pub fn copy_range(bytes: &[u8], from: usize, to: usize) -> (r: Vec<u8>)
    requires
        from <= to <= bytes@.len(),
    ensures
        r@ == bytes@.subrange(from as int, to as int),
{
    let mut out: Vec<u8> = Vec::new();
    push_bytes(&mut out, &bytes[from..to]);
    assert(out@ =~= bytes@.subrange(from as int, to as int));
    out
}

/// Whether two byte strings are equal.
pub fn same_bytes(a: &[u8], b: &[u8]) -> (r: bool)
    ensures
        r == (a@ == b@),
{
    if a.len() != b.len() {
        return false;
    }
    let mut i: usize = 0;
    while i < a.len()
        invariant
            i <= a.len(),
            a.len() == b.len(),
            forall|j: int| 0 <= j < i ==> a@[j] == b@[j],
        decreases a.len() - i,
    {
        if a[i] != b[i] {
            return false;
        }
        i = i + 1;
    }
    assert(a@ =~= b@);
    true
}

/// Whether `bytes` begins with `prefix`.
pub fn starts_with(bytes: &[u8], prefix: &[u8]) -> (r: bool)
    ensures
        r == prefix@.is_prefix_of(bytes@),
{
    if bytes.len() < prefix.len() {
        return false;
    }
    let r = same_bytes(&bytes[0..prefix.len()], prefix);
    r
}

} // verus!
