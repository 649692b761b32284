//! The bytes that go over the wire, and what bytes that come in stand for.

use vstd::prelude::*;

use crate::ids::ConnIds;
use crate::net::Endpoint;
use crate::service::{Reliability, ServiceId};
use crate::transport::chunk::{chunk_datagrams, Parts, Reassembler};
use crate::traversal::stun::{binding_request, binding_request_for, parse_mapped};
use crate::wire::frame::Frame;
use crate::wire::mux::ChannelAllocator;

verus! {

/// The value of two bytes, the first of them worth more.
pub open spec fn num16(b: Seq<u8>, i: int) -> int {
    b[i] * 256 + b[i + 1]
}

/// The value of four bytes, the first of them worth most.
pub open spec fn num32(b: Seq<u8>, i: int) -> int {
    num16(b, i) * 65536 + num16(b, i + 2)
}

/// A frame is nine bytes of header, each field in its place, and then its payload as it is.
pub proof fn law_frame_layout(f: Frame, r: Vec<u8>)
    requires
        call_ensures(Frame::encode, (&f,), r),
    ensures
        r@.len() == 9 + f.payload@.len(),
        r@[0] == 2,
        r@[1] == f.service,
        num16(r@, 2) == f.channel,
        r@[4] == f.flags,
        num32(r@, 5) == f.seq,
        r@.skip(9) == f.payload@,
{
    assert(r@.skip(9) =~= f.payload@);
    let b = r@;
    let c = crate::wire::be::be16(f.channel);
    let q = crate::wire::be::be32(f.seq);
    assert(b.subrange(2, 4) =~= c);
    assert(b.subrange(5, 9) =~= q);
    assert(b[2] == b.subrange(2, 4)[0] && b[3] == b.subrange(2, 4)[1]);
    assert(b[5] == b.subrange(5, 9)[0] && b[6] == b.subrange(5, 9)[1]);
    assert(b[7] == b.subrange(5, 9)[2] && b[8] == b.subrange(5, 9)[3]);
}

/// Bytes are read as a frame where they have a header of this version, and the frame is what
/// its bytes say; what was encoded is decoded as it was.
pub proof fn law_frame_is_decoded(bytes: &[u8], r: Option<Frame>)
    requires
        call_ensures(Frame::decode, (bytes,), r),
    ensures
        r is Some <==> bytes@.len() >= 9 && bytes@[0] == 2,
        r matches Some(f) ==> {
            &&& f.service == bytes@[1]
            &&& f.channel == num16(bytes@, 2)
            &&& f.flags == bytes@[4]
            &&& f.seq == num32(bytes@, 5)
            &&& f.payload@ == bytes@.skip(9)
        },
{
}

/// A frame is drop-tolerant where the lowest bit of its flags says so.
pub proof fn law_datagram_flag(f: Frame, r: bool)
    requires
        call_ensures(Frame::is_datagram, (&f,), r),
    ensures
        r <==> f.flags % 2 == 1,
{
    let x = f.flags;
    assert((x & 0x01 != 0) <==> x % 2 == 1) by (bit_vector);
}

/// Each service has its own byte, the one that it always had.
pub proof fn law_service_codes(id: ServiceId, r: u8)
    requires
        call_ensures(ServiceId::code, (id,), r),
    ensures
        id is Messaging <==> r == 0,
        id is Clipboard <==> r == 1,
        id is Notification <==> r == 2,
        id is CallHistory <==> r == 3,
        id is Av <==> r == 4,
        id is RemoteControl <==> r == 5,
{
}

/// Channels are numbered from one on, each by the number that follows the last.
pub proof fn law_channels_are_numbered(
    fresh: ChannelAllocator,
    a: &mut ChannelAllocator,
    b: &mut ChannelAllocator,
    x: Reliability,
    y: Reliability,
    first: u16,
    second: u16,
)
    requires
        call_ensures(ChannelAllocator::new, (), fresh),
        call_ensures(ChannelAllocator::allocate, (a, x), first),
        old(b)@ == final(a)@,
        call_ensures(ChannelAllocator::allocate, (b, y), second),
    ensures
        old(a)@ == fresh@ ==> first == 1,
        first < 0xffff ==> second == first + 1,
        first == 0xffff ==> second == 0,
{
}

/// Each kind of link counts its ids from a place of its own.
pub proof fn law_link_ids(
    fresh: ConnIds,
    a: &mut ConnIds,
    b: &mut ConnIds,
    c: &mut ConnIds,
    ws: u64,
    punch: u64,
    rtc: u64,
)
    requires
        call_ensures(ConnIds::new, (), fresh),
        call_ensures(ConnIds::next_ws, (a,), ws),
        call_ensures(ConnIds::next_punch, (b,), punch),
        call_ensures(ConnIds::next_rtc, (c,), rtc),
        old(a).ws < u64::MAX,
        old(b).punch < u64::MAX,
        old(c).rtc < u64::MAX,
    ensures
        fresh.ws == 1 && fresh.punch == 1_000_000 && fresh.rtc == 2_000_000,
        ws == old(a).ws && *final(a) == (ConnIds { ws: (old(a).ws + 1) as u64, ..*old(a) }),
        punch == old(b).punch && *final(b) == (ConnIds {
            punch: (old(b).punch + 1) as u64,
            ..*old(b)
        }),
        rtc == old(c).rtc && *final(c) == (ConnIds { rtc: (old(c).rtc + 1) as u64, ..*old(c) }),
{
}

/// A message goes out in chunks of 1024 bytes, of which the last may be shorter. Each begins
/// with `mdck`, the id of the message, the number of chunks and its own place among them; put
/// together in order they are the message.
pub proof fn law_chunk_layout(msg_id: u32, data: &[u8], r: Vec<Vec<u8>>, i: int)
    requires
        call_ensures(chunk_datagrams, (msg_id, data), r),
        0 <= i < r@.len(),
        r@.len() <= 0xffff,
    ensures
        data@.len() == 0 ==> r@.len() == 1,
        data@.len() > 0 ==> (r@.len() - 1) * 1024 < data@.len() <= r@.len() * 1024,
        ({
            let p = r@[i]@;
            &&& p.len() >= 12
            &&& p[0] == 0x6d && p[1] == 0x64 && p[2] == 0x63 && p[3] == 0x6b
            &&& num32(p, 4) == msg_id
            &&& num16(p, 8) == r@.len()
            &&& num16(p, 10) == i
            &&& p.skip(12) == data@.subrange(
                i * 1024,
                if (i + 1) * 1024 < data@.len() {
                    (i + 1) * 1024
                } else {
                    data@.len() as int
                },
            )
        }),
{
    let all = r@.map_values(|p: Vec<u8>| p@);
    assert(all.len() == r@.len());
    assert(all[i] == r@[i]@);
    let p = r@[i]@;
    let n = crate::transport::chunk::chunk_count(data@.len());
    let total = (n % 0x1_0000) as u16;
    let index = (i % 0x1_0000) as u16;
    let bytes = crate::transport::chunk::chunk_bytes(data@, i);
    assert(i * 1024 <= data@.len());
    let magic = crate::transport::chunk::chunk_magic();
    let a = crate::wire::be::be32(msg_id);
    let b = crate::wire::be::be16(total);
    let c = crate::wire::be::be16(index);
    assert(p == magic + a + b + c + bytes);
    assert(p.subrange(4, 8) =~= a);
    assert(p.subrange(8, 10) =~= b);
    assert(p.subrange(10, 12) =~= c);
    assert(p[4] == p.subrange(4, 8)[0] && p[5] == p.subrange(4, 8)[1]);
    assert(p[6] == p.subrange(4, 8)[2] && p[7] == p.subrange(4, 8)[3]);
    assert(p[8] == p.subrange(8, 10)[0] && p[9] == p.subrange(8, 10)[1]);
    assert(p[10] == p.subrange(10, 12)[0] && p[11] == p.subrange(10, 12)[1]);
    assert(p.skip(12) =~= bytes);
}

/// Whether bytes are a chunk: long enough, with the right beginning, and one of those that
/// the message has.
pub open spec fn is_chunk(p: Seq<u8>) -> bool {
    &&& p.len() >= 12
    &&& p[0] == 0x6d && p[1] == 0x64 && p[2] == 0x63 && p[3] == 0x6b
    &&& num16(p, 10) < num16(p, 8)
}

/// What is no chunk does nothing to the messages that are being put together.
pub proof fn law_no_chunk_does_nothing(m: &mut Reassembler, pkt: &[u8], r: Option<Vec<u8>>)
    requires
        call_ensures(Reassembler::reasm_feed, (m, pkt), r),
        !is_chunk(pkt@),
    ensures
        r is None,
        final(m)@ == old(m)@,
{
    lemma_parse(pkt@);
}

proof fn lemma_parse(p: Seq<u8>)
    ensures
        crate::transport::chunk::parse_chunk(p) is Some <==> is_chunk(p),
        crate::transport::chunk::parse_chunk(p) matches Some(c) ==> c.id == num32(p, 4) && c.total
            == num16(p, 8) && c.index == num16(p, 10) && c.payload == p.skip(12),
{
    if p.len() >= 12 {
        let h = p.subrange(0, 4);
        assert(h[0] == p[0] && h[1] == p[1] && h[2] == p[2] && h[3] == p[3]);
        if p[0] == 0x6d && p[1] == 0x64 && p[2] == 0x63 && p[3] == 0x6b {
            assert(h =~= crate::transport::chunk::chunk_magic());
        }
    }
}

/// The places of a message, once a chunk has taken its own if that was free.
pub open spec fn placed(was: Parts, index: int, payload: Seq<u8>) -> Parts {
    Seq::new(
        was.len(),
        |i: int|
            if i == index && was[i] is None {
                Some(payload)
            } else {
                was[i]
            },
    )
}

/// Whether no place of a message is free.
pub open spec fn is_whole(parts: Parts) -> bool {
    forall|i: int| 0 <= i < parts.len() ==> (#[trigger] parts[i]) is Some
}

/// The places that a message has when a chunk of it comes in: those it had, or all of them
/// free.
pub open spec fn places(m: Map<u32, Parts>, id: u32, total: int) -> Parts {
    if m.contains_key(id) {
        m[id]
    } else {
        Seq::new(total as nat, |i: int| None)
    }
}

/// A chunk goes to its message and to no other: it takes its place there if that was free,
/// and the message is handed out, in the order of its places, once none is free. A chunk
/// that disagrees on how many there are is passed over. A new message begins with all places
/// free, and where 256 are being put together already these are given up for it.
pub proof fn law_chunk_takes_its_place(m: &mut Reassembler, pkt: &[u8], r: Option<Vec<u8>>)
    requires
        call_ensures(Reassembler::reasm_feed, (m, pkt), r),
        is_chunk(pkt@),
    ensures
        ({
            let id = num32(pkt@, 4) as u32;
            let total = num16(pkt@, 8);
            let kept = if old(m)@.contains_key(id) || old(m)@.len() < 256 {
                old(m)@
            } else {
                Map::empty()
            };
            let was = places(old(m)@, id, total);
            let now = placed(was, num16(pkt@, 10), pkt@.skip(12));
            &&& was.len() != total ==> r is None && final(m)@ == kept
            &&& was.len() == total && !is_whole(now) ==> r is None && final(m)@ == kept.insert(
                id,
                now,
            )
            &&& was.len() == total && is_whole(now) ==> {
                &&& final(m)@ == kept.remove(id)
                &&& r matches Some(bytes)
                &&& bytes@ == joined(now)
            }
        }),
{
    lemma_parse(pkt@);
    let c = crate::transport::chunk::parse_chunk(pkt@)->0;
    let id = num32(pkt@, 4) as u32;
    let total = num16(pkt@, 8);
    let index = num16(pkt@, 10);
    let was = places(old(m)@, id, total);
    let now = placed(was, index, pkt@.skip(12));
    assert(c.id == id && c.total == total && c.index == index && c.payload == pkt@.skip(12));
    let room = if old(m)@.len() >= 256 && !old(m)@.contains_key(id) {
        Map::empty()
    } else {
        old(m)@
    };
    let parts = if room.contains_key(id) {
        room[id]
    } else {
        crate::transport::chunk::no_parts(total as nat)
    };
    assert(parts =~= was);
    if was.len() == total {
        let grown = if was[index] is None {
            was.update(index, Some(pkt@.skip(12)))
        } else {
            was
        };
        assert(grown =~= now);
        assert(crate::transport::chunk::all_present(grown) <==> is_whole(now));
        lemma_joined(now, now.len());
        assert(now.take(now.len() as int) =~= now);
    }
}

/// The parts one after the other.
pub open spec fn joined(parts: Parts) -> Seq<u8>
    decreases parts.len(),
{
    if parts.len() == 0 {
        Seq::empty()
    } else {
        joined(parts.drop_last()) + parts.last()->0
    }
}

proof fn lemma_joined(parts: Parts, n: nat)
    requires
        n <= parts.len(),
    ensures
        crate::transport::chunk::concat_parts(parts, n) == joined(parts.take(n as int)),
    decreases n,
{
    if n > 0 {
        lemma_joined(parts, (n - 1) as nat);
        assert(parts.take(n as int).drop_last() =~= parts.take(n - 1));
    }
}

/// A request for our address is a STUN Binding Request, with the transaction's id at its end.
pub proof fn law_stun_request(txid: &[u8], r: Vec<u8>, drawn: Vec<u8>)
    requires
        call_ensures(binding_request_for, (txid,), r),
        call_ensures(binding_request, (), drawn),
    ensures
        r@.len() == 8 + txid@.len(),
        num16(r@, 0) == 0x0001,
        num16(r@, 2) == 0,
        num32(r@, 4) == 0x2112_A442,
        r@.skip(8) == txid@,
        drawn@.len() == 20,
        num16(drawn@, 0) == 0x0001,
        num16(drawn@, 2) == 0,
        num32(drawn@, 4) == 0x2112_A442,
{
    assert(r@.skip(8) =~= txid@);
    let t = choose|t: Seq<u8>| #[trigger]
        crate::traversal::stun::request_bytes(t) == drawn@ && t.len() == 12;
    assert(crate::traversal::stun::request_bytes(t) == drawn@);
}

/// Whether an attribute that begins at `i` says where we were seen: a mapped address, plain
/// or with the cookie on it, of the IPv4 family.
pub open spec fn tells_address(b: Seq<u8>, i: int) -> bool {
    &&& num16(b, i) == 0x0020 || num16(b, i) == 0x0001
    &&& num16(b, i + 2) >= 8
    &&& b[i + 5] == 1
}

/// Whether an address is the one that an attribute says, with the cookie taken off where it
/// is on.
pub open spec fn is_told(b: Seq<u8>, i: int, e: Endpoint) -> bool {
    if num16(b, i) == 0x0020 {
        &&& b[i + 8] == e.ip.a ^ 0x21
        &&& b[i + 9] == e.ip.b ^ 0x12
        &&& b[i + 10] == e.ip.c ^ 0xA4
        &&& b[i + 11] == e.ip.d ^ 0x42
        &&& num16(b, i + 6) == (e.port ^ 0x2112)
    } else {
        &&& b[i + 8] == e.ip.a && b[i + 9] == e.ip.b && b[i + 10] == e.ip.c && b[i + 11] == e.ip.d
        &&& num16(b, i + 6) == e.port
    }
}

/// The address that a server saw is read from the first attribute of its reply that says one,
/// whatever attributes come before, each of which takes a multiple of four bytes.
pub proof fn law_stun_reply(msg: &[u8], at: Seq<int>, e: Endpoint, r: Option<Endpoint>)
    requires
        call_ensures(parse_mapped, (msg,), r),
        msg@.len() >= 20,
        num16(msg@, 0) == 0x0101,
        20 + num16(msg@, 2) == msg@.len(),
        at.len() > 0,
        at[0] == 20,
        forall|k: int|
            0 <= k < at.len() ==> 20 <= #[trigger] at[k] && at[k] + 4 + num16(msg@, at[k] + 2)
                <= msg@.len(),
        forall|k: int|
            0 <= k < at.len() - 1 ==> !tells_address(msg@, #[trigger] at[k]) && at[k + 1]
                == at[k] + 4 + (num16(msg@, at[k] + 2) + 3) / 4 * 4,
        tells_address(msg@, at.last()),
        is_told(msg@, at.last(), e),
    ensures
        r == Some(e),
{
    lemma_stun_walk(msg@, at, e);
}

proof fn lemma_stun_walk(b: Seq<u8>, at: Seq<int>, e: Endpoint)
    requires
        b.len() >= 20,
        at.len() > 0,
        forall|k: int|
            0 <= k < at.len() ==> 20 <= #[trigger] at[k] && at[k] + 4 + num16(b, at[k] + 2)
                <= b.len(),
        forall|k: int|
            0 <= k < at.len() - 1 ==> !tells_address(b, #[trigger] at[k]) && at[k + 1] == at[k] + 4
                + (num16(b, at[k] + 2) + 3) / 4 * 4,
        tells_address(b, at.last()),
        is_told(b, at.last(), e),
    ensures
        crate::traversal::stun::first_address(b, at[0], b.len() as int) == Some(e),
    decreases at.len(),
{
    let i = at[0];
    let alen = num16(b, i + 2);
    assert(i + 4 + alen <= b.len());
    assert(crate::traversal::stun::gives_address(b, i) <==> tells_address(b, i));
    if at.len() == 1 {
        let (p, q, s, t, port) = (e.ip.a, e.ip.b, e.ip.c, e.ip.d, e.port);
        assert((p ^ 0x21) ^ 0x21 == p) by (bit_vector);
        assert((q ^ 0x12) ^ 0x12 == q) by (bit_vector);
        assert((s ^ 0xA4) ^ 0xA4 == s) by (bit_vector);
        assert((t ^ 0x42) ^ 0x42 == t) by (bit_vector);
        assert((port ^ 0x2112) ^ 0x2112 == port) by (bit_vector);
        assert(crate::traversal::stun::address_at(b, i) == e);
    } else {
        let next = at.skip(1);
        assert(!tells_address(b, at[0]));
        assert(at[1] == i + 4 + (alen + 3) / 4 * 4);
        assert(crate::traversal::stun::next_attr(i, alen) == at[1]);
        assert forall|k: int| 0 <= k < next.len() implies 20 <= #[trigger] next[k] && next[k] + 4
            + num16(b, next[k] + 2) <= b.len() by {
            assert(next[k] == at[k + 1]);
        }
        assert forall|k: int| 0 <= k < next.len() - 1 implies !tells_address(b, #[trigger] next[k])
            && next[k + 1] == next[k] + 4 + (num16(b, next[k] + 2) + 3) / 4 * 4 by {
            assert(next[k] == at[k + 1] && next[k + 1] == at[k + 2]);
        }
        assert(next.last() == at.last());
        lemma_stun_walk(b, next, e);
    }
}

/// What is no reply to a Binding Request says no address, and neither does one in which no
/// attribute says one.
pub proof fn law_stun_silence(msg: &[u8], r: Option<Endpoint>)
    requires
        call_ensures(parse_mapped, (msg,), r),
    ensures
        msg@.len() < 20 ==> r is None,
        msg@.len() >= 20 && num16(msg@, 0) != 0x0101 ==> r is None,
        (forall|i: int| 20 <= i ==> !#[trigger] tells_address(msg@, i)) ==> r is None,
{
    if msg@.len() >= 20 && num16(msg@, 0) == 0x0101 && (forall|i: int|
        20 <= i ==> !#[trigger] tells_address(msg@, i)) {
        lemma_stun_silence(msg@, 20, crate::traversal::stun::attrs_end(msg@));
    }
}

proof fn lemma_stun_silence(b: Seq<u8>, i: int, end: int)
    requires
        20 <= i,
        forall|k: int| 20 <= k ==> !#[trigger] tells_address(b, k),
    ensures
        crate::traversal::stun::first_address(b, i, end) is None,
    decreases b.len() + 4 - i,
{
    if i + 4 <= end && end <= b.len() {
        let alen = crate::wire::be::from_be16(b[i + 2], b[i + 3]) as int;
        assert(!tells_address(b, i));
        if i + 4 + alen <= b.len() {
            lemma_stun_silence(b, crate::traversal::stun::next_attr(i, alen), end);
        }
    }
}

} // verus!
