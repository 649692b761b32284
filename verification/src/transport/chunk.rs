//! Application-level chunking for the punched datagram path.
//!
//! A raw UDP datagram cannot reliably carry a large message, so each frame is
//! split into MTU-safe chunks with a tiny header and reassembled on the far side.
//! Header: magic(4) id(4) total(2) index(2); then at most `CHUNK_PAYLOAD` bytes.

use std::collections::HashMap;

use vstd::prelude::*;

use crate::wire::be::{copy_range, push_be16, push_be32, push_bytes, read_be16, read_be32};

verus! {

broadcast use vstd::std_specs::hash::group_hash_axioms;

pub const CHUNK_HDR: usize = 12;

pub const CHUNK_PAYLOAD: usize = 1024;

/// Cap on simultaneously reassembling messages, so that a peer dribbling partial
/// chunks cannot grow memory without bound.
pub const REASM_MAX: usize = 256;

/// The bytes `mdck` that open every chunk.
pub open spec fn chunk_magic() -> Seq<u8> {
    seq![0x6du8, 0x64u8, 0x63u8, 0x6bu8]
}

/// One parsed chunk datagram.
pub struct ChunkView {
    pub id: u32,
    pub total: u16,
    pub index: u16,
    pub payload: Seq<u8>,
}

/// The parts of one message received so far, one slot per chunk.
pub type Parts = Seq<Option<Seq<u8>>>;

/// How many chunks carry `len` bytes: at least one, so that an empty payload still
/// arrives.
pub open spec fn chunk_count(len: nat) -> nat {
    if len == 0 {
        1
    } else {
        (len + 1023) as nat / 1024
    }
}

pub open spec fn smaller(a: int, b: int) -> int {
    if a < b {
        a
    } else {
        b
    }
}

/// The bytes that chunk `i` of `data` carries.
pub open spec fn chunk_bytes(data: Seq<u8>, i: int) -> Seq<u8> {
    data.subrange(i * 1024, smaller((i + 1) * 1024, data.len() as int))
}

/// A chunk datagram: header, then payload.
pub open spec fn datagram(id: u32, total: u16, index: u16, payload: Seq<u8>) -> Seq<u8> {
    chunk_magic() + crate::wire::be::be32(id) + crate::wire::be::be16(total) + crate::wire::be::be16(
        index,
    ) + payload
}

/// The datagrams that carry `data` as message `id`. The 16-bit fields hold the
/// number of chunks and the chunk's position modulo 2^16.
pub open spec fn datagrams(id: u32, data: Seq<u8>) -> Seq<Seq<u8>> {
    Seq::new(
        chunk_count(data.len()),
        |i: int|
            datagram(
                id,
                (chunk_count(data.len()) % 0x1_0000) as u16,
                (i % 0x1_0000) as u16,
                chunk_bytes(data, i),
            ),
    )
}

/// The chunk that a datagram holds, if it is a well-formed one.
pub open spec fn parse_chunk(pkt: Seq<u8>) -> Option<ChunkView> {
    if pkt.len() < 12 || pkt.subrange(0, 4) != chunk_magic() {
        None
    } else {
        let id = crate::wire::be::from_be32(pkt[4], pkt[5], pkt[6], pkt[7]);
        let total = crate::wire::be::from_be16(pkt[8], pkt[9]);
        let index = crate::wire::be::from_be16(pkt[10], pkt[11]);
        if total == 0 || index >= total {
            None
        } else {
            Some(ChunkView { id, total, index, payload: pkt.skip(12) })
        }
    }
}

pub open spec fn no_parts(total: nat) -> Parts {
    Seq::new(total, |i: int| None)
}

pub open spec fn all_present(parts: Parts) -> bool {
    forall|i: int| 0 <= i < parts.len() ==> (#[trigger] parts[i]) is Some
}

/// The first `n` parts, one after the other.
pub open spec fn concat_parts(parts: Parts, n: nat) -> Seq<u8>
    decreases n,
{
    if n == 0 {
        Seq::empty()
    } else {
        concat_parts(parts, (n - 1) as nat) + parts[n - 1]->0
    }
}

/// What one datagram does to the messages being reassembled, and the message that
/// it completes.
pub open spec fn fed(m: Map<u32, Parts>, pkt: Seq<u8>) -> (Map<u32, Parts>, Option<Seq<u8>>) {
    match parse_chunk(pkt) {
        None => (m, None),
        Some(c) => {
            let room = if m.len() >= 256 && !m.contains_key(c.id) {
                Map::empty()
            } else {
                m
            };
            let parts = if room.contains_key(c.id) {
                room[c.id]
            } else {
                no_parts(c.total as nat)
            };
            if parts.len() != c.total {
                (room, None)
            } else {
                let grown = if parts[c.index as int] is None {
                    parts.update(c.index as int, Some(c.payload))
                } else {
                    parts
                };
                if all_present(grown) {
                    (room.remove(c.id), Some(concat_parts(grown, grown.len())))
                } else {
                    (room.insert(c.id, grown), None)
                }
            }
        },
    }
}

/// What a list of datagrams, fed in order, leaves behind and what each completes.
pub open spec fn fed_all(m: Map<u32, Parts>, pkts: Seq<Seq<u8>>) -> (
    Map<u32, Parts>,
    Seq<Option<Seq<u8>>>,
)
    decreases pkts.len(),
{
    if pkts.len() == 0 {
        (m, Seq::empty())
    } else {
        let before = fed_all(m, pkts.drop_last());
        let step = fed(before.0, pkts.last());
        (step.0, before.1.push(step.1))
    }
}

/// The number of parts present.
pub open spec fn present_count(parts: Parts) -> nat
    decreases parts.len(),
{
    if parts.len() == 0 {
        0
    } else {
        present_count(parts.drop_last()) + if parts.last() is Some {
            1nat
        } else {
            0nat
        }
    }
}

proof fn lemma_present_count(parts: Parts)
    ensures
        present_count(parts) <= parts.len(),
        present_count(parts) == parts.len() <==> all_present(parts),
    decreases parts.len(),
{
    if parts.len() > 0 {
        lemma_present_count(parts.drop_last());
        if all_present(parts) {
            assert(forall|i: int|
                0 <= i < parts.drop_last().len() ==> parts.drop_last()[i] == parts[i]);
            assert(parts[parts.len() - 1] is Some);
        }
        if present_count(parts) == parts.len() {
            assert forall|i: int| 0 <= i < parts.len() implies (#[trigger] parts[i]) is Some by {
                if i < parts.len() - 1 {
                    assert(parts.drop_last()[i] is Some);
                }
            }
        }
    }
}

proof fn lemma_present_count_update(parts: Parts, k: int, p: Seq<u8>)
    requires
        0 <= k < parts.len(),
        parts[k] is None,
    ensures
        present_count(parts.update(k, Some(p))) == present_count(parts) + 1,
    decreases parts.len(),
{
    let after = parts.update(k, Some(p));
    if k == parts.len() - 1 {
        assert(after.drop_last() =~= parts.drop_last());
    } else {
        assert(after.drop_last() =~= parts.drop_last().update(k, Some(p)));
        lemma_present_count_update(parts.drop_last(), k, p);
    }
}

proof fn lemma_present_count_none(n: nat)
    ensures
        present_count(no_parts(n)) == 0,
    decreases n,
{
    if n > 0 {
        assert(no_parts(n).drop_last() =~= no_parts((n - 1) as nat));
        lemma_present_count_none((n - 1) as nat);
    }
}

/// In-progress reassembly of one chunked message.
pub struct Reasm {
    total: u16,
    received: u16,
    parts: Vec<Option<Vec<u8>>>,
}

impl Reasm {
    pub closed spec fn parts_view(self) -> Parts {
        self.parts@.map_values(
            |p: Option<Vec<u8>>|
                match p {
                    Some(v) => Some(v@),
                    None => None,
                },
        )
    }

    pub closed spec fn wf(self) -> bool {
        &&& self.total > 0
        &&& self.parts@.len() == self.total
        &&& self.received == present_count(self.parts_view())
        &&& self.received < self.total
    }

    fn fresh(total: u16) -> (r: Reasm)
        ensures
            r.total == total,
            r.received == 0,
            r.parts_view() == no_parts(total as nat),
    {
        let mut parts: Vec<Option<Vec<u8>>> = Vec::new();
        for i in 0..total
            invariant
                parts@.len() == i,
                forall|j: int| 0 <= j < i ==> (#[trigger] parts@[j]) is None,
        {
            parts.push(None);
        }
        let r = Reasm { total, received: 0, parts };
        assert(r.parts_view() =~= no_parts(total as nat));
        r
    }

    /// Every part, one after the other.
    fn concat(&self) -> (r: Vec<u8>)
        requires
            all_present(self.parts_view()),
        ensures
            r@ == concat_parts(self.parts_view(), self.parts_view().len()),
    {
        let mut out: Vec<u8> = Vec::new();
        let ghost view = self.parts_view();
        for i in 0..self.parts.len()
            invariant
                view == self.parts_view(),
                all_present(view),
                out@ == concat_parts(view, i as nat),
        {
            assert(view[i as int] is Some);
            match &self.parts[i] {
                Some(p) => {
                    push_bytes(&mut out, p.as_slice());
                },
                None => {},
            }
        }
        out
    }
}

/// The parts of each message, by message id.
spec fn parts_of(pending: Map<u32, Reasm>) -> Map<u32, Parts> {
    pending.map_values(|r: Reasm| r.parts_view())
}

/// Every pending message is incomplete, and there are at most `REASM_MAX`.
spec fn is_pending(pending: Map<u32, Reasm>) -> bool {
    &&& pending.dom().finite()
    &&& pending.len() <= 256
    &&& forall|id: u32| #[trigger] pending.contains_key(id) ==> pending[id].wf()
}

/// Feed one datagram to the messages that are pending.
fn feed(pending: &mut HashMap<u32, Reasm>, pkt: &[u8]) -> (r: Option<Vec<u8>>)
    requires
        is_pending(old(pending)@),
    ensures
        is_pending(final(pending)@),
        parts_of(final(pending)@) == fed(parts_of(old(pending)@), pkt@).0,
        match r {
            Some(bytes) => fed(parts_of(old(pending)@), pkt@).1 == Some(bytes@),
            None => fed(parts_of(old(pending)@), pkt@).1 is None,
        },
{
    if pkt.len() < CHUNK_HDR {
        return None;
    }
    if !(pkt[0] == 0x6d && pkt[1] == 0x64 && pkt[2] == 0x63 && pkt[3] == 0x6b) {
        assert(pkt@.subrange(0, 4)[0] == pkt@[0]);
        assert(pkt@.subrange(0, 4)[1] == pkt@[1]);
        assert(pkt@.subrange(0, 4)[2] == pkt@[2]);
        assert(pkt@.subrange(0, 4)[3] == pkt@[3]);
        return None;
    }
    assert(pkt@.subrange(0, 4) =~= chunk_magic());
    let id: u32 = read_be32(pkt[4], pkt[5], pkt[6], pkt[7]);
    let total: u16 = read_be16(pkt[8], pkt[9]);
    let index: u16 = read_be16(pkt[10], pkt[11]);
    if total == 0 || index >= total {
        return None;
    }
    let payload = copy_range(pkt, CHUNK_HDR, pkt.len());
    assert(payload@ =~= pkt@.skip(12));
    let ghost before = pending@;
    let ghost view0 = parts_of(pending@);
    assert(view0.dom() =~= before.dom());
    if pending.len() >= REASM_MAX && !pending.contains_key(&id) {
        pending.clear();
    }
    let ghost room = pending@;
    let ghost room_view = parts_of(pending@);
    proof {
        assert(room_view =~= if view0.len() >= 256 && !view0.contains_key(id) {
            Map::empty()
        } else {
            view0
        });
    }
    let mut entry = match pending.remove(&id) {
        Some(e) => e,
        None => {
            let e = Reasm::fresh(total);
            proof {
                lemma_present_count_none(total as nat);
            }
            e
        },
    };
    assert(pending@ == room.remove(id));
    assert(parts_of(pending@) =~= room_view.remove(id));
    let ghost parts0 = entry.parts_view();
    assert(entry.wf());
    assert(parts0 == if room_view.contains_key(id) {
        room_view[id]
    } else {
        no_parts(total as nat)
    });
    if entry.total != total {
        pending.insert(id, entry);
        assert(pending@ =~= room);
        assert(parts_of(pending@) =~= room_view);
        return None;
    }
    let vacant = match &entry.parts[index as usize] {
        Some(_) => false,
        None => true,
    };
    if vacant {
        proof {
            lemma_present_count_update(parts0, index as int, payload@);
            lemma_present_count(parts0);
        }
        entry.received = entry.received + 1;
        entry.parts[index as usize] = Some(payload);
        assert(entry.parts_view() =~= parts0.update(index as int, Some(pkt@.skip(12))));
    }
    proof {
        lemma_present_count(entry.parts_view());
    }
    if entry.received == entry.total {
        let out = entry.concat();
        return Some(out);
    }
    pending.insert(id, entry);
    assert(parts_of(pending@) =~= room_view.insert(id, entry.parts_view()));
    proof {
        assert(!all_present(entry.parts_view()));
    }
    None
}

/// The messages being reassembled on one link, by message id.
pub struct Reassembler {
    pending: HashMap<u32, Reasm>,
}

impl View for Reassembler {
    type V = Map<u32, Parts>;

    closed spec fn view(&self) -> Map<u32, Parts> {
        parts_of(self.pending@)
    }
}

impl Reassembler {
    #[verifier::type_invariant]
    spec fn wf(&self) -> bool {
        is_pending(self.pending@)
    }

    pub fn new() -> (r: Reassembler)
        ensures
            r@ == Map::<u32, Parts>::empty(),
    {
        let r = Reassembler { pending: HashMap::new() };
        assert(r@ =~= Map::<u32, Parts>::empty());
        r
    }

    /// Feed one received datagram into the reassembler. Returns the message bytes
    /// when one is complete, `None` while still collecting (or if the datagram is
    /// not a chunk).
    pub fn reasm_feed(&mut self, pkt: &[u8]) -> (r: Option<Vec<u8>>)
        ensures
            final(self)@ == fed(old(self)@, pkt@).0,
            match r {
                Some(bytes) => fed(old(self)@, pkt@).1 == Some(bytes@),
                None => fed(old(self)@, pkt@).1 is None,
            },
    {
        proof {
            use_type_invariant(&*self);
        }
        let mut pending: HashMap<u32, Reasm> = HashMap::new();
        std::mem::swap(&mut pending, &mut self.pending);
        let r = feed(&mut pending, pkt);
        self.pending = pending;
        r
    }
}

/// Split `data` into the chunk datagrams of message `msg_id`. There is always at
/// least one.
pub fn chunk_datagrams(msg_id: u32, data: &[u8]) -> (r: Vec<Vec<u8>>)
    ensures
        r@.map_values(|p: Vec<u8>| p@) == datagrams(msg_id, data@),
        r@.len() >= 1,
{
    let n: usize = if data.len() == 0 {
        1
    } else {
        (data.len() - 1) / CHUNK_PAYLOAD + 1
    };
    assert(n == chunk_count(data@.len()));
    let total: u16 = (n % 0x1_0000) as u16;
    let mut out: Vec<Vec<u8>> = Vec::new();
    let mut i: usize = 0;
    while i < n
        invariant
            i <= n,
            n == chunk_count(data@.len()),
            total == (n % 0x1_0000) as u16,
            out@.len() == i,
            forall|j: int| 0 <= j < i ==> (#[trigger] out@[j])@ == datagrams(msg_id, data@)[j],
        decreases n - i,
    {
        assert(i * 1024 <= data.len());
        let from: usize = i * CHUNK_PAYLOAD;
        let to: usize = if data.len() - from > CHUNK_PAYLOAD {
            from + CHUNK_PAYLOAD
        } else {
            data.len()
        };
        let mut pkt: Vec<u8> = Vec::new();
        pkt.push(0x6d);
        pkt.push(0x64);
        pkt.push(0x63);
        pkt.push(0x6b);
        assert(pkt@ =~= chunk_magic());
        push_be32(&mut pkt, msg_id);
        push_be16(&mut pkt, total);
        push_be16(&mut pkt, (i % 0x1_0000) as u16);
        push_bytes(&mut pkt, &data[from..to]);
        assert(pkt@ == datagrams(msg_id, data@)[i as int]);
        out.push(pkt);
        i = i + 1;
    }
    assert(out@.map_values(|p: Vec<u8>| p@) =~= datagrams(msg_id, data@));
    out
}

/// The parts of `data` whose positions are in `seen`.
pub open spec fn parts_seen(data: Seq<u8>, seen: Seq<int>) -> Parts {
    Seq::new(
        chunk_count(data.len()),
        |i: int|
            if seen.contains(i) {
                Some(chunk_bytes(data, i))
            } else {
                None
            },
    )
}

/// Whether every chunk position of `data` is in `seen`.
pub open spec fn covers(data: Seq<u8>, seen: Seq<int>) -> bool {
    forall|i: int| 0 <= i < chunk_count(data.len()) ==> #[trigger] seen.contains(i)
}

/// The datagrams of message `id` at the given positions.
pub open spec fn picked(id: u32, data: Seq<u8>, order: Seq<int>) -> Seq<Seq<u8>> {
    order.map_values(|i: int| datagrams(id, data)[i])
}

proof fn lemma_concat_chunks(data: Seq<u8>, parts: Parts, k: nat)
    requires
        parts.len() == chunk_count(data.len()),
        k <= parts.len(),
        forall|i: int| 0 <= i < parts.len() ==> #[trigger] parts[i] == Some(chunk_bytes(data, i)),
    ensures
        concat_parts(parts, k) == data.take(smaller((k * 1024) as int, data.len() as int)),
    decreases k,
{
    if k == 0 {
        assert(data.take(0) =~= Seq::<u8>::empty());
    } else {
        lemma_concat_chunks(data, parts, (k - 1) as nat);
        assert(parts[k - 1] == Some(chunk_bytes(data, k - 1)));
        assert((k - 1) * 1024 <= data.len());
        assert(data.take((k - 1) * 1024) + chunk_bytes(data, k - 1) =~= data.take(
            smaller((k * 1024) as int, data.len() as int),
        ));
    }
}

/// Every datagram of a message that fits in 2^16 - 1 chunks is recognized, with its
/// own position and bytes. No chunk is larger than `CHUNK_PAYLOAD`.
pub proof fn law_datagram_parses(id: u32, data: Seq<u8>, i: int)
    requires
        chunk_count(data.len()) <= 0xffff,
        0 <= i < chunk_count(data.len()),
    ensures
        datagrams(id, data)[i].len() <= 12 + 1024,
        parse_chunk(datagrams(id, data)[i]) == Some(
            ChunkView {
                id,
                total: chunk_count(data.len()) as u16,
                index: i as u16,
                payload: chunk_bytes(data, i),
            },
        ),
{
    let total = (chunk_count(data.len()) % 0x1_0000) as u16;
    let index = (i % 0x1_0000) as u16;
    let p = chunk_bytes(data, i);
    let pkt = datagram(id, total, index, p);
    assert(i * 1024 <= data.len());
    crate::wire::be::law_be32_round_trip(id);
    crate::wire::be::law_be16_round_trip(total);
    crate::wire::be::law_be16_round_trip(index);
    assert(pkt.subrange(0, 4) =~= chunk_magic());
    assert(pkt.subrange(4, 8) =~= crate::wire::be::be32(id));
    assert(pkt.subrange(8, 10) =~= crate::wire::be::be16(total));
    assert(pkt.subrange(10, 12) =~= crate::wire::be::be16(index));
    assert(pkt[4] == pkt.subrange(4, 8)[0]);
    assert(pkt[5] == pkt.subrange(4, 8)[1]);
    assert(pkt[6] == pkt.subrange(4, 8)[2]);
    assert(pkt[7] == pkt.subrange(4, 8)[3]);
    assert(pkt[8] == pkt.subrange(8, 10)[0]);
    assert(pkt[9] == pkt.subrange(8, 10)[1]);
    assert(pkt[10] == pkt.subrange(10, 12)[0]);
    assert(pkt[11] == pkt.subrange(10, 12)[1]);
    assert(pkt.skip(12) =~= p);
}

proof fn lemma_feed_incomplete(m: Map<u32, Parts>, id: u32, data: Seq<u8>, order: Seq<int>)
    requires
        m.dom().finite(),
        m.len() < 256,
        !m.contains_key(id),
        chunk_count(data.len()) <= 0xffff,
        forall|k: int| 0 <= k < order.len() ==> 0 <= #[trigger] order[k] < chunk_count(data.len()),
        !covers(data, order),
    ensures
        fed_all(m, picked(id, data, order)).0 == if order.len() == 0 {
            m
        } else {
            m.insert(id, parts_seen(data, order))
        },
        fed_all(m, picked(id, data, order)).1 == Seq::new(order.len(), |k: int| None::<Seq<u8>>),
    decreases order.len(),
{
    let pkts = picked(id, data, order);
    if order.len() == 0 {
        assert(fed_all(m, pkts).1 =~= Seq::new(order.len(), |k: int| None::<Seq<u8>>));
    } else {
        let prev = order.drop_last();
        let last = order.last();
        let missing = choose|i: int|
            0 <= i < chunk_count(data.len()) && !(#[trigger] order.contains(i));
        assert(!prev.contains(missing)) by {
            if prev.contains(missing) {
                let k = choose|k: int| 0 <= k < prev.len() && prev[k] == missing;
                assert(order[k] == missing);
            }
        }
        lemma_feed_incomplete(m, id, data, prev);
        assert(pkts.drop_last() =~= picked(id, data, prev));
        assert(order[order.len() - 1] == last);
        law_datagram_parses(id, data, last);
        let before = fed_all(m, picked(id, data, prev)).0;
        lemma_seen_grows(data, order);
        assert(no_parts(chunk_count(data.len())) =~= parts_seen(data, Seq::<int>::empty()));
        if prev.len() == 0 {
            assert(prev =~= Seq::<int>::empty());
        }
        let grown = parts_seen(data, order);
        assert(grown[missing] is None);
        assert(!all_present(grown));
        assert(fed(before, pkts.last()).0 =~= m.insert(id, grown));
        assert(fed_all(m, pkts).1 =~= Seq::new(order.len(), |k: int| None::<Seq<u8>>));
    }
}

proof fn lemma_seen_grows(data: Seq<u8>, order: Seq<int>)
    requires
        order.len() > 0,
        0 <= order.last() < chunk_count(data.len()),
    ensures
        ({
            let before = parts_seen(data, order.drop_last());
            let last = order.last();
            parts_seen(data, order) == if before[last] is None {
                before.update(last, Some(chunk_bytes(data, last)))
            } else {
                before
            }
        }),
{
    let prev = order.drop_last();
    let before = parts_seen(data, prev);
    let last = order.last();
    assert(order[order.len() - 1] == last);
    assert forall|i: int| order.contains(i) == (prev.contains(i) || i == last) by {
        if order.contains(i) {
            let k = choose|k: int| 0 <= k < order.len() && order[k] == i;
            if k < order.len() - 1 {
                assert(prev[k] == i);
            }
        }
        if prev.contains(i) {
            let k = choose|k: int| 0 <= k < prev.len() && prev[k] == i;
            assert(order[k] == i);
        }
    }
    assert(parts_seen(data, order) =~= if before[last] is None {
        before.update(last, Some(chunk_bytes(data, last)))
    } else {
        before
    });
}

/// The datagrams of a message may arrive in any order and any number of times: the
/// datagram that brings the last missing position completes the message, its bytes
/// are exactly the bytes sent, every earlier one yields nothing, and nothing of the
/// message stays behind.
pub proof fn law_reassembly(m: Map<u32, Parts>, id: u32, data: Seq<u8>, order: Seq<int>)
    requires
        m.dom().finite(),
        m.len() < 256,
        !m.contains_key(id),
        chunk_count(data.len()) <= 0xffff,
        order.len() > 0,
        forall|k: int| 0 <= k < order.len() ==> 0 <= #[trigger] order[k] < chunk_count(data.len()),
        covers(data, order),
        !order.drop_last().contains(order.last()),
    ensures
        fed_all(m, picked(id, data, order)).0 == m,
        fed_all(m, picked(id, data, order)).1 == Seq::new(
            order.len(),
            |k: int|
                if k == order.len() - 1 {
                    Some(data)
                } else {
                    None
                },
        ),
{
    let pkts = picked(id, data, order);
    let prev = order.drop_last();
    let last = order.last();
    assert(order[order.len() - 1] == last);
    assert(!covers(data, prev)) by {
        assert(!prev.contains(last));
    }
    lemma_feed_incomplete(m, id, data, prev);
    assert(pkts.drop_last() =~= picked(id, data, prev));
    law_datagram_parses(id, data, last);
    lemma_seen_grows(data, order);
    assert(no_parts(chunk_count(data.len())) =~= parts_seen(data, Seq::<int>::empty()));
    if prev.len() == 0 {
        assert(prev =~= Seq::<int>::empty());
    }
    let before = fed_all(m, picked(id, data, prev)).0;
    let grown = parts_seen(data, order);
    assert forall|i: int| 0 <= i < grown.len() implies #[trigger] grown[i] == Some(
        chunk_bytes(data, i),
    ) by {
        assert(order.contains(i));
    }
    assert(all_present(grown));
    lemma_concat_chunks(data, grown, grown.len());
    assert(data.take(data.len() as int) =~= data);
    assert(fed(before, pkts.last()).0 =~= m);
    assert(fed_all(m, pkts).1 =~= Seq::new(
        order.len(),
        |k: int|
            if k == order.len() - 1 {
                Some(data)
            } else {
                None
            },
    ));
}

/// A datagram that belongs to another message, or is no chunk at all, leaves a
/// message being reassembled as it was, as long as the table has room.
pub proof fn law_other_traffic_keeps_message(m: Map<u32, Parts>, id: u32, pkt: Seq<u8>)
    requires
        m.contains_key(id),
        parse_chunk(pkt) matches Some(c) ==> c.id != id && (m.len() < 256 || m.contains_key(c.id)),
    ensures
        fed(m, pkt).0.contains_key(id),
        fed(m, pkt).0[id] == m[id],
{
}

/// However many datagrams arrive, no more than `REASM_MAX` messages are held.
pub proof fn law_reassembly_is_bounded(m: Map<u32, Parts>, pkts: Seq<Seq<u8>>)
    requires
        m.dom().finite(),
        m.len() <= 256,
    ensures
        fed_all(m, pkts).0.dom().finite(),
        fed_all(m, pkts).0.len() <= 256,
    decreases pkts.len(),
{
    if pkts.len() > 0 {
        law_reassembly_is_bounded(m, pkts.drop_last());
        let before = fed_all(m, pkts.drop_last()).0;
        match parse_chunk(pkts.last()) {
            Some(c) => {
                if before.contains_key(c.id) {
                    assert(before.dom().insert(c.id) =~= before.dom());
                }
            },
            None => {},
        }
    }
}

} // verus!
