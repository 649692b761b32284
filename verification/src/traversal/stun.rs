//! Minimal STUN (RFC 5389) Binding client: enough to learn our reflexive (public)
//! IPv4:port mapping for hole punching.

use vstd::prelude::*;

use crate::crypto::random_bytes;
use crate::net::{Endpoint, Ipv4};
use crate::wire::be::{push_be16, push_be32, push_bytes, read_be16};

verus! {

pub const MAGIC: u32 = 0x2112_A442;

/// A Binding Request: type, zero length, magic cookie, transaction id.
pub open spec fn request_bytes(txid: Seq<u8>) -> Seq<u8> {
    seq![0x00u8, 0x01u8, 0x00u8, 0x00u8, 0x21u8, 0x12u8, 0xA4u8, 0x42u8] + txid
}

/// Where the next attribute begins: after the value, padded to a 4-byte boundary.
pub open spec fn next_attr(i: int, alen: int) -> int {
    i + 4 + alen + (4 - alen % 4) % 4
}

/// Whether the attribute at `i` gives an IPv4 address: XOR-MAPPED-ADDRESS or
/// MAPPED-ADDRESS, long enough, of the IPv4 family.
pub open spec fn gives_address(msg: Seq<u8>, i: int) -> bool {
    let atype = crate::wire::be::from_be16(msg[i], msg[i + 1]);
    let alen = crate::wire::be::from_be16(msg[i + 2], msg[i + 3]);
    (atype == 0x0020 || atype == 0x0001) && alen >= 8 && msg[i + 5] == 0x01
}

/// The address that the attribute at `i` gives, with the magic cookie taken off
/// where it is an XOR-MAPPED-ADDRESS.
pub open spec fn address_at(msg: Seq<u8>, i: int) -> Endpoint {
    let port = crate::wire::be::from_be16(msg[i + 6], msg[i + 7]);
    if crate::wire::be::from_be16(msg[i], msg[i + 1]) == 0x0020 {
        Endpoint {
            ip: Ipv4 {
                a: msg[i + 8] ^ 0x21,
                b: msg[i + 9] ^ 0x12,
                c: msg[i + 10] ^ 0xA4,
                d: msg[i + 11] ^ 0x42,
            },
            port: port ^ 0x2112,
        }
    } else {
        Endpoint {
            ip: Ipv4 { a: msg[i + 8], b: msg[i + 9], c: msg[i + 10], d: msg[i + 11] },
            port,
        }
    }
}

/// The first address among the attributes from `i` on. The walk stops at `end` or
/// at an attribute that runs past the message.
pub open spec fn first_address(msg: Seq<u8>, i: int, end: int) -> Option<Endpoint>
    decreases msg.len() + 4 - i,
{
    if i < 0 || i + 4 > end || end > msg.len() {
        None
    } else {
        let alen = crate::wire::be::from_be16(msg[i + 2], msg[i + 3]) as int;
        if i + 4 + alen > msg.len() {
            None
        } else if gives_address(msg, i) {
            Some(address_at(msg, i))
        } else {
            first_address(msg, next_attr(i, alen), end)
        }
    }
}

pub open spec fn attrs_end(msg: Seq<u8>) -> int {
    let declared = 20 + crate::wire::be::from_be16(msg[2], msg[3]);
    if declared < msg.len() {
        declared
    } else {
        msg.len() as int
    }
}

/// The mapped address of a Binding Success Response.
pub open spec fn mapped_spec(msg: Seq<u8>) -> Option<Endpoint> {
    if msg.len() < 20 || crate::wire::be::from_be16(msg[0], msg[1]) != 0x0101 {
        None
    } else {
        first_address(msg, 20, attrs_end(msg))
    }
}

/// The request for the transaction `txid`.
pub fn binding_request_for(txid: &[u8]) -> (r: Vec<u8>)
    ensures
        r@ == request_bytes(txid@),
{
    let mut req: Vec<u8> = Vec::new();
    push_be16(&mut req, 0x0001);
    push_be16(&mut req, 0);
    push_be32(&mut req, MAGIC);
    push_bytes(&mut req, txid);
    assert(req@ =~= request_bytes(txid@));
    req
}

/// A request with a fresh random transaction id.
pub fn binding_request() -> (r: Vec<u8>)
    ensures
        exists|txid: Seq<u8>| #[trigger] request_bytes(txid) == r@ && txid.len() == 12,
        r@.len() == 20,
{
    let txid: [u8; 12] = random_bytes();
    let r = binding_request_for(&txid);
    assert(txid@.len() == 12);
    r
}

/// The observed reflexive address in a server's reply, or `None` if it holds none.
pub fn parse_mapped(msg: &[u8]) -> (r: Option<Endpoint>)
    ensures
        r == mapped_spec(msg@),
{
    if msg.len() < 20 {
        return None;
    }
    if read_be16(msg[0], msg[1]) != 0x0101 {
        return None;
    }
    let declared: usize = 20 + read_be16(msg[2], msg[3]) as usize;
    let end: usize = if declared < msg.len() {
        declared
    } else {
        msg.len()
    };
    let mut i: usize = 20;
    while i + 4 <= end
        invariant
            msg@.len() >= 20,
            crate::wire::be::from_be16(msg@[0], msg@[1]) == 0x0101,
            20 <= i <= 0x30000,
            end <= msg.len(),
            end <= 20 + 0xffff,
            end == attrs_end(msg@),
            first_address(msg@, 20, end as int) == first_address(msg@, i as int, end as int),
        decreases end + 0x30000 - i,
    {
        let atype: u16 = read_be16(msg[i], msg[i + 1]);
        let alen: usize = read_be16(msg[i + 2], msg[i + 3]) as usize;
        let v: usize = i + 4;
        if v + alen > msg.len() {
            return None;
        }
        if (atype == 0x0020 || atype == 0x0001) && alen >= 8 && msg[v + 1] == 0x01 {
            let port: u16 = read_be16(msg[v + 2], msg[v + 3]);
            let found = if atype == 0x0020 {
                Endpoint::new(
                    Ipv4::new(
                        msg[v + 4] ^ 0x21,
                        msg[v + 5] ^ 0x12,
                        msg[v + 6] ^ 0xA4,
                        msg[v + 7] ^ 0x42,
                    ),
                    port ^ 0x2112,
                )
            } else {
                Endpoint::new(Ipv4::new(msg[v + 4], msg[v + 5], msg[v + 6], msg[v + 7]), port)
            };
            assert(gives_address(msg@, i as int));
            return Some(found);
        }
        assert(!gives_address(msg@, i as int));
        i = v + alen + ((4 - (alen % 4)) % 4);
    }
    None
}

/// A Binding Success Response with one XOR-MAPPED-ADDRESS attribute.
pub open spec fn xor_mapped_response(txid: Seq<u8>, e: Endpoint) -> Seq<u8> {
    seq![0x01u8, 0x01u8, 0x00u8, 0x0cu8, 0x21u8, 0x12u8, 0xA4u8, 0x42u8] + txid + seq![
        0x00u8,
        0x20u8,
        0x00u8,
        0x08u8,
        0x00u8,
        0x01u8,
    ] + crate::wire::be::be16(e.port ^ 0x2112) + seq![
        e.ip.a ^ 0x21,
        e.ip.b ^ 0x12,
        e.ip.c ^ 0xA4,
        e.ip.d ^ 0x42,
    ]
}

/// The address that a server wraps in an XOR-MAPPED-ADDRESS is the address that the
/// client reads.
pub proof fn law_xor_mapped_round_trip(txid: Seq<u8>, e: Endpoint)
    requires
        txid.len() == 12,
    ensures
        mapped_spec(xor_mapped_response(txid, e)) == Some(e),
{
    let m = xor_mapped_response(txid, e);
    crate::wire::be::law_be16_round_trip(e.port ^ 0x2112);
    assert(m.len() == 32);
    assert(m.subrange(26, 28) =~= crate::wire::be::be16(e.port ^ 0x2112));
    assert(m[26] == m.subrange(26, 28)[0] && m[27] == m.subrange(26, 28)[1]);
    let (a, b, c, d, p) = (e.ip.a, e.ip.b, e.ip.c, e.ip.d, e.port);
    assert((a ^ 0x21) ^ 0x21 == a) by (bit_vector);
    assert((b ^ 0x12) ^ 0x12 == b) by (bit_vector);
    assert((c ^ 0xA4) ^ 0xA4 == c) by (bit_vector);
    assert((d ^ 0x42) ^ 0x42 == d) by (bit_vector);
    assert((p ^ 0x2112) ^ 0x2112 == p) by (bit_vector);
    assert(m[28] == a ^ 0x21 && m[29] == b ^ 0x12 && m[30] == c ^ 0xA4 && m[31] == d ^ 0x42);
    assert(m[20] == 0x00 && m[21] == 0x20 && m[22] == 0x00 && m[23] == 0x08 && m[25] == 0x01);
    assert(attrs_end(m) == 32);
    assert(gives_address(m, 20));
}

} // verus!
