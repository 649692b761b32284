//! UDP hole-punch data path. Builds on the `traversal` primitives: gather host and
//! reflexive candidates on a dedicated socket, exchange them via signaling
//! (`PunchOffer`/`PunchAnswer`), punch, then drive a link that ferries the very same
//! encrypted `msg` frames the WS path uses. A punched peer registers in `ws_conns`,
//! so that the rest of the engine treats a punched link exactly like a WebSocket.
//!
//! Times are in milliseconds on a clock that never goes back, except for `last_seen`
//! stamps, which are in seconds.

use vstd::prelude::*;

use super::chunk::{
    chunk_count, chunk_datagrams, datagrams, fed, fed_all, law_reassembly, parse_chunk, picked,
    Parts, Reassembler,
};
use super::ws::{holds_slot, owns_slot, release_slot, slot_released};
use super::{
    drop_live, dropped_live, mark_live, marked_live, touch_live, touched_live, TransportKind,
};
use crate::engine::{NetCtx, NetView};
use crate::events::{effects, Effect, EffectView};
use crate::net::{dotted, ipv4_of, Endpoint, Ipv4};
use crate::signal::{candidates_view, Candidate, CandidateView};
use crate::text::{decimal, decimal_text, join, same_text};
use crate::traversal::punch::{after, after_spec, due, is_due};
use crate::wire::be::same_bytes;

verus! {

/// The probe `mdpunch1`. It serves as the punch magic and as the keepalive ping, so
/// that a peer still punching recognizes a ping.
pub open spec fn ping_bytes() -> Seq<u8> {
    seq![0x6du8, 0x64u8, 0x70u8, 0x75u8, 0x6eu8, 0x63u8, 0x68u8, 0x31u8]
}

/// The reply `mdpong01`, which proves the round trip.
pub open spec fn pong_bytes() -> Seq<u8> {
    seq![0x6du8, 0x64u8, 0x70u8, 0x6fu8, 0x6eu8, 0x67u8, 0x30u8, 0x31u8]
}

/// The punch magic, and the ping of an established link.
pub fn punch_ping() -> (r: [u8; 8])
    ensures
        r@ == ping_bytes(),
{
    let r: [u8; 8] = [0x6d, 0x64, 0x70, 0x75, 0x6e, 0x63, 0x68, 0x31];
    assert(r@ =~= ping_bytes());
    r
}

/// The answer to a ping.
pub fn punch_pong() -> (r: [u8; 8])
    ensures
        r@ == pong_bytes(),
{
    let r: [u8; 8] = [0x6d, 0x64, 0x70, 0x6f, 0x6e, 0x67, 0x30, 0x31];
    assert(r@ =~= pong_bytes());
    r
}

/// How long the peers punch.
pub const PUNCH_MS: u64 = 8000;

/// How long a round trip may take to be proven, and how often it is tried.
pub const CONFIRM_MS: u64 = 3000;

pub const CONFIRM_EVERY_MS: u64 = 150;

/// How often a ping keeps the NAT binding of an idle link open.
pub const KEEPALIVE_MS: u64 = 3000;

/// The candidates of a device: its LAN address with the punch socket's port, if it
/// has one, and the address under which a STUN server saw the socket, if it did.
pub open spec fn gathered(ip: Seq<char>, port: u16, reflexive: Option<Endpoint>) -> Seq<
    CandidateView,
> {
    let host = if ip.len() > 0 && ip != "0.0.0.0"@ {
        seq![CandidateView { ip, port, kind: "host"@ }]
    } else {
        Seq::empty()
    };
    match reflexive {
        Some(e) => host.push(CandidateView { ip: dotted(e.ip), port: e.port, kind: "srflx"@ }),
        None => host,
    }
}

/// The candidates to offer, or `None` if there are none.
pub fn gather_candidates(ctx: &NetCtx, port: u16, reflexive: Option<Endpoint>) -> (r: Option<
    Vec<Candidate>,
>)
    ensures
        match r {
            Some(v) => candidates_view(v@) == gathered(ctx@.identity.ip, port, reflexive)
                && v@.len() > 0,
            None => gathered(ctx@.identity.ip, port, reflexive).len() == 0,
        },
{
    let mut out: Vec<Candidate> = Vec::new();
    let ip = ctx.identity.ip.as_str();
    if ip.unicode_len() > 0 && !same_text(ip, "0.0.0.0") {
        out.push(Candidate { ip: ip.to_owned(), port, kind: "host".to_owned() });
    }
    if let Some(e) = reflexive {
        out.push(Candidate { ip: e.ip.to_text(), port: e.port, kind: "srflx".to_owned() });
    }
    assert(candidates_view(out@) =~= gathered(ctx@.identity.ip, port, reflexive));
    if out.len() == 0 {
        None
    } else {
        Some(out)
    }
}

/// An address to punch toward.
pub enum PunchTarget {
    V4(Endpoint),
    /// Bracketed text that is not IPv4: an IPv6 socket address, if it is an address.
    Bracketed(String),
}

#[verifier::ext_equal]
pub enum PunchTargetView {
    V4(Endpoint),
    Bracketed(Seq<char>),
}

impl View for PunchTarget {
    type V = PunchTargetView;

    open spec fn view(&self) -> PunchTargetView {
        match self {
            PunchTarget::V4(e) => PunchTargetView::V4(*e),
            PunchTarget::Bracketed(s) => PunchTargetView::Bracketed(s@),
        }
    }
}

/// The targets, each by its view.
pub open spec fn targets_view(s: Seq<PunchTarget>) -> Seq<PunchTargetView> {
    s.map_values(|t: PunchTarget| t@)
}

/// Where one candidate is to be found, if anywhere.
pub open spec fn target_of(c: CandidateView) -> Option<PunchTargetView> {
    match ipv4_of(c.ip) {
        Some(ip) => Some(PunchTargetView::V4(Endpoint { ip, port: c.port })),
        None => if c.ip.len() > 0 && c.ip[0] == '[' {
            Some(PunchTargetView::Bracketed(c.ip + ":"@ + decimal(c.port as nat)))
        } else {
            None
        },
    }
}

/// Where the candidates are to be found; one that is no address is passed over.
pub open spec fn targets_of(cands: Seq<CandidateView>) -> Seq<PunchTargetView>
    decreases cands.len(),
{
    if cands.len() == 0 {
        Seq::empty()
    } else {
        match target_of(cands.last()) {
            Some(t) => targets_of(cands.drop_last()).push(t),
            None => targets_of(cands.drop_last()),
        }
    }
}

/// Where the candidates are to be found.
pub fn to_addrs(cands: &Vec<Candidate>) -> (r: Vec<PunchTarget>)
    ensures
        targets_view(r@) == targets_of(candidates_view(cands@)),
{
    let ghost all = candidates_view(cands@);
    let mut out: Vec<PunchTarget> = Vec::new();
    assert(all.take(0) =~= Seq::empty());
    assert(targets_view(out@) =~= Seq::empty());
    for i in 0..cands.len()
        invariant
            all == candidates_view(cands@),
            targets_view(out@) == targets_of(all.take(i as int)),
    {
        let ghost before = out@;
        assert(all.take(i + 1).drop_last() =~= all.take(i as int));
        assert(all.take(i + 1).last() == cands@[i as int]@);
        let c = &cands[i];
        match Ipv4::parse(c.ip.as_str()) {
            Some(ip) => {
                out.push(PunchTarget::V4(Endpoint::new(ip, c.port)));
                assert(targets_view(out@) =~= targets_view(before).push(out@.last()@));
            },
            None => {
                if c.ip.as_str().unicode_len() > 0 && c.ip.as_str().get_char(0) == '[' {
                    let with_colon = join(c.ip.as_str(), ":");
                    let port = decimal_text(c.port as u64);
                    out.push(PunchTarget::Bracketed(join(with_colon.as_str(), port.as_str())));
                    assert(targets_view(out@) =~= targets_view(before).push(out@.last()@));
                }
            },
        }
    }
    assert(all.take(cands@.len() as int) =~= all);
    out
}

/// What a device offers of itself is found by its peer: the host candidate whenever
/// the advertised address is IPv4, and the reflexive one always.
pub proof fn law_candidates_are_found(ip: Ipv4, port: u16, reflexive: Option<Endpoint>)
    requires
        dotted(ip) != "0.0.0.0"@,
    ensures
        ({
            let found = targets_of(gathered(dotted(ip), port, reflexive));
            let host = PunchTargetView::V4(Endpoint { ip, port });
            found == match reflexive {
                Some(e) => seq![host, PunchTargetView::V4(e)],
                None => seq![host],
            }
        }),
{
    crate::net::law_ipv4_round_trip(ip);
    let host = CandidateView { ip: dotted(ip), port, kind: "host"@ };
    assert(target_of(host) == Some(PunchTargetView::V4(Endpoint { ip, port })));
    assert(dotted(ip).len() > 0);
    assert(seq![host].drop_last() =~= Seq::empty());
    assert(targets_of(Seq::<CandidateView>::empty()) =~= Seq::empty());
    assert(targets_of(seq![host]) =~= seq![PunchTargetView::V4(Endpoint { ip, port })]);
    if let Some(e) = reflexive {
        crate::net::law_ipv4_round_trip(e.ip);
        let refl = CandidateView { ip: dotted(e.ip), port: e.port, kind: "srflx"@ };
        assert(seq![host].push(refl).drop_last() =~= seq![host]);
        assert(targets_of(seq![host].push(refl)) =~= seq![
            PunchTargetView::V4(Endpoint { ip, port }),
            PunchTargetView::V4(e),
        ]);
    }
}

/// What to do next while a round trip is being proven.
#[derive(Clone, Copy, Debug, PartialEq, Eq)]
pub enum ConfirmTick {
    /// The round trip was not proven in time: the path is one-way at best.
    Expired,
    /// Ping the peer if there is an address, then wait for a datagram.
    Wait { ping: Option<Endpoint> },
}

/// What a datagram means while a round trip is being proven.
#[derive(Clone, Copy, Debug, PartialEq, Eq)]
pub enum ConfirmIn {
    /// The round trip is proven, to this address.
    Proven(Endpoint),
    /// The peer's probe: answer it with a pong.
    Reply(Endpoint),
    /// Something else.
    Other,
}

/// Confirming that the path is usable in BOTH directions before it is trusted.
/// Receiving the peer's probe only proves peer to us; we must also learn that our
/// packets reach the peer. So ping and wait for a pong: a returned pong means our
/// ping arrived and its reply came back.
pub struct RoundTrip {
    pub deadline: u64,
    pub last_ping: Option<u64>,
    pub peer: Endpoint,
}

impl RoundTrip {
    pub fn new(now: u64, peer: Endpoint) -> (r: RoundTrip)
        ensures
            r == (RoundTrip { deadline: after_spec(now, CONFIRM_MS), last_ping: None, peer }),
    {
        RoundTrip { deadline: after(now, CONFIRM_MS), last_ping: None, peer }
    }

    /// Go on at `now`.
    pub fn tick(&mut self, now: u64) -> (r: ConfirmTick)
        ensures
            final(self).deadline == old(self).deadline,
            final(self).peer == old(self).peer,
            r == if now >= old(self).deadline {
                ConfirmTick::Expired
            } else if is_due(old(self).last_ping, CONFIRM_EVERY_MS, now) {
                ConfirmTick::Wait { ping: Some(old(self).peer) }
            } else {
                ConfirmTick::Wait { ping: None }
            },
            final(self).last_ping == if r == (ConfirmTick::Wait { ping: Some(old(self).peer) }) {
                Some(now)
            } else {
                old(self).last_ping
            },
    {
        if now >= self.deadline {
            return ConfirmTick::Expired;
        }
        if due(self.last_ping, CONFIRM_EVERY_MS, now) {
            self.last_ping = Some(now);
            ConfirmTick::Wait { ping: Some(self.peer) }
        } else {
            ConfirmTick::Wait { ping: None }
        }
    }

    /// A datagram came in. Only a pong proves the round trip; a probe makes us lock
    /// onto the address that the peer's packets actually come from.
    pub fn on_packet(&mut self, pkt: &[u8], src: Endpoint) -> (r: ConfirmIn)
        ensures
            r == if pkt@ == pong_bytes() {
                ConfirmIn::Proven(src)
            } else if pkt@ == ping_bytes() {
                ConfirmIn::Reply(src)
            } else {
                ConfirmIn::Other
            },
            *final(self) == (RoundTrip {
                peer: if r is Reply {
                    src
                } else {
                    old(self).peer
                },
                ..*old(self)
            }),
    {
        let pong = punch_pong();
        let ping = punch_ping();
        if same_bytes(pkt, &pong) {
            ConfirmIn::Proven(src)
        } else if same_bytes(pkt, &ping) {
            self.peer = src;
            ConfirmIn::Reply(src)
        } else {
            ConfirmIn::Other
        }
    }
}

/// What a datagram means on an established link.
pub enum LinkIn {
    /// A ping: answer it with a pong.
    Ping,
    /// A pong.
    Pong,
    /// The last chunk of a frame.
    Frame(Vec<u8>),
    /// Something else: a chunk of an unfinished frame, or no chunk at all.
    Other,
}

pub enum LinkInView {
    Ping,
    Pong,
    Frame(Seq<u8>),
    Other,
}

impl View for LinkIn {
    type V = LinkInView;

    open spec fn view(&self) -> LinkInView {
        match self {
            LinkIn::Ping => LinkInView::Ping,
            LinkIn::Pong => LinkInView::Pong,
            LinkIn::Frame(b) => LinkInView::Frame(b@),
            LinkIn::Other => LinkInView::Other,
        }
    }
}

/// An established punched link.
pub struct PunchLink {
    pub node_id: String,
    pub conn_id: u64,
    /// Where the peer's packets come from.
    pub peer: Endpoint,
    pub next_msg_id: u32,
    pub last_keepalive: u64,
    pub pending: Reassembler,
}

pub struct LinkView {
    pub node_id: Seq<char>,
    pub conn_id: u64,
    pub peer: Endpoint,
    pub next_msg_id: u32,
    pub last_keepalive: u64,
    pub pending: Map<u32, Parts>,
}

impl View for PunchLink {
    type V = LinkView;

    open spec fn view(&self) -> LinkView {
        LinkView {
            node_id: self.node_id@,
            conn_id: self.conn_id,
            peer: self.peer,
            next_msg_id: self.next_msg_id,
            last_keepalive: self.last_keepalive,
            pending: self.pending@,
        }
    }
}

/// What a datagram means on a link that is collecting the given chunks.
pub open spec fn link_in(pending: Map<u32, Parts>, pkt: Seq<u8>) -> LinkInView {
    if pkt == ping_bytes() {
        LinkInView::Ping
    } else if pkt == pong_bytes() {
        LinkInView::Pong
    } else {
        match fed(pending, pkt).1 {
            Some(frame) => LinkInView::Frame(frame),
            None => LinkInView::Other,
        }
    }
}

/// The link once a datagram has come in: what tells us something of the peer also
/// tells us where it is.
pub open spec fn link_after(link: LinkView, pkt: Seq<u8>, src: Endpoint) -> LinkView {
    LinkView {
        peer: if link_in(link.pending, pkt) is Other {
            link.peer
        } else {
            src
        },
        pending: if pkt == ping_bytes() || pkt == pong_bytes() {
            link.pending
        } else {
            fed(link.pending, pkt).0
        },
        ..link
    }
}

/// The state and the effects once a link has been established.
pub open spec fn established(
    net: NetView,
    node_id: Seq<char>,
    conn: u64,
    peer: Endpoint,
    now: u64,
) -> (NetView, Seq<EffectView>) {
    marked_live(
        NetView { ws_conns: net.ws_conns.insert(node_id, conn), ..net },
        node_id,
        TransportKind::Punch,
        Some(peer),
        now,
    )
}

/// The state and the effects once a link has ended.
pub open spec fn link_ended(net: NetView, node_id: Seq<char>, conn: u64) -> (
    NetView,
    Seq<EffectView>,
) {
    dropped_live(slot_released(net, node_id, conn), node_id)
}

impl PunchLink {
    /// Register a link whose round trip is proven. `None` where the peer has a link
    /// already (e.g. a WebSocket), which is not clobbered.
    pub fn establish(
        ctx: &mut NetCtx,
        node_id: &str,
        conn_id: u64,
        peer: Endpoint,
        now_secs: u64,
        now: u64,
    ) -> (r: Option<(PunchLink, Vec<Effect>)>)
        ensures
            r is None <==> old(ctx)@.ws_conns.contains_key(node_id@),
            r is None ==> final(ctx)@ == old(ctx)@,
            r matches Some(t) ==> {
                &&& final(ctx)@ == established(old(ctx)@, node_id@, conn_id, peer, now_secs).0
                &&& effects(t.1@) == established(old(ctx)@, node_id@, conn_id, peer, now_secs).1
                &&& t.0@ == (LinkView {
                    node_id: node_id@,
                    conn_id,
                    peer,
                    next_msg_id: 0,
                    last_keepalive: now,
                    pending: Map::empty(),
                })
            },
    {
        if ctx.ws_conns.contains_key(node_id) {
            return None;
        }
        ctx.ws_conns.insert(node_id.to_owned(), conn_id);
        let out = mark_live(ctx, node_id, TransportKind::Punch, Some(peer), now_secs);
        let link = PunchLink {
            node_id: node_id.to_owned(),
            conn_id,
            peer,
            next_msg_id: 0,
            last_keepalive: now,
            pending: Reassembler::new(),
        };
        Some((link, out))
    }

    /// The datagrams that carry an outgoing frame, each small enough for the path.
    pub fn send_frame(&mut self, frame: &str) -> (r: Vec<Vec<u8>>)
        ensures
            r@.map_values(|p: Vec<u8>| p@) == datagrams(
                old(self).next_msg_id,
                vstd::utf8::encode_utf8(frame@),
            ),
            final(self)@ == (LinkView {
                next_msg_id: old(self).next_msg_id.wrapping_add(1),
                ..old(self)@
            }),
            final(self).pending == old(self).pending,
    {
        let id: u32 = self.next_msg_id;
        self.next_msg_id = id.wrapping_add(1);
        chunk_datagrams(id, frame.as_bytes())
    }

    /// Whether the NAT binding needs a ping at `now`; if so, it is taken to be sent.
    pub fn keepalive(&mut self, now: u64) -> (r: bool)
        ensures
            r == is_due(Some(old(self).last_keepalive), KEEPALIVE_MS, now),
            final(self)@ == (LinkView {
                last_keepalive: if r {
                    now
                } else {
                    old(self).last_keepalive
                },
                ..old(self)@
            }),
            final(self).pending == old(self).pending,
    {
        if due(Some(self.last_keepalive), KEEPALIVE_MS, now) {
            self.last_keepalive = now;
            true
        } else {
            false
        }
    }

    /// A datagram came in.
    pub fn on_packet(&mut self, ctx: &mut NetCtx, pkt: &[u8], src: Endpoint, now_secs: u64) -> (r:
        LinkIn)
        ensures
            r@ == link_in(old(self)@.pending, pkt@),
            final(self)@ == link_after(old(self)@, pkt@, src),
            final(ctx)@ == if r is Other {
                old(ctx)@
            } else {
                touched_live(old(ctx)@, old(self)@.node_id, now_secs)
            },
    {
        let ping = punch_ping();
        let pong = punch_pong();
        if same_bytes(pkt, &ping) {
            self.peer = src;
            touch_live(ctx, self.node_id.as_str(), now_secs);
            LinkIn::Ping
        } else if same_bytes(pkt, &pong) {
            self.peer = src;
            touch_live(ctx, self.node_id.as_str(), now_secs);
            LinkIn::Pong
        } else {
            match self.pending.reasm_feed(pkt) {
                Some(frame) => {
                    self.peer = src;
                    touch_live(ctx, self.node_id.as_str(), now_secs);
                    LinkIn::Frame(frame)
                },
                None => LinkIn::Other,
            }
        }
    }

    /// Whether the link is still the peer's link and still live: a newer link may
    /// have replaced it, or the heartbeat evicted it for staleness.
    pub fn still_up(&self, ctx: &NetCtx) -> (r: bool)
        ensures
            r == (owns_slot(ctx@, self@.node_id, self.conn_id) && ctx@.p2p_conns.contains_key(
                self@.node_id,
            )),
    {
        holds_slot(ctx, self.node_id.as_str(), self.conn_id) && ctx.p2p_conns.contains_key(
            self.node_id.as_str(),
        )
    }

    /// The link is done: give up its slot if it still has it, and drop the peer.
    pub fn end(&self, ctx: &mut NetCtx) -> (r: Vec<Effect>)
        ensures
            final(ctx)@ == link_ended(old(ctx)@, self@.node_id, self.conn_id).0,
            effects(r@) == link_ended(old(ctx)@, self@.node_id, self.conn_id).1,
    {
        let _ = release_slot(ctx, self.node_id.as_str(), self.conn_id);
        drop_live(ctx, self.node_id.as_str())
    }
}

/// No datagram of a frame is mistaken for a probe.
pub proof fn law_frames_are_no_probes(id: u32, data: Seq<u8>, i: int)
    requires
        0 <= i < chunk_count(data.len()),
    ensures
        datagrams(id, data)[i] != ping_bytes(),
        datagrams(id, data)[i] != pong_bytes(),
        ping_bytes() != pong_bytes(),
        parse_chunk(ping_bytes()) is None,
        parse_chunk(pong_bytes()) is None,
{
    assert(datagrams(id, data)[i].len() >= 12);
    assert(ping_bytes()[3] != pong_bytes()[3]);
}

/// What a list of datagrams, coming in one after the other, means on a link.
pub open spec fn link_ins(pending: Map<u32, Parts>, pkts: Seq<Seq<u8>>) -> Seq<LinkInView>
    decreases pkts.len(),
{
    if pkts.len() == 0 {
        Seq::empty()
    } else {
        link_ins(pending, pkts.drop_last()).push(
            link_in(fed_all(pending, pkts.drop_last()).0, pkts.last()),
        )
    }
}

/// A frame that goes out over a link arrives on the other side as it was, with its
/// last datagram and not before, in whatever order the datagrams come in and however
/// often each does.
pub proof fn law_frame_arrives(pending: Map<u32, Parts>, id: u32, data: Seq<u8>, order: Seq<int>)
    requires
        pending.dom().finite(),
        pending.len() < 256,
        !pending.contains_key(id),
        chunk_count(data.len()) <= 0xffff,
        order.len() > 0,
        forall|k: int| 0 <= k < order.len() ==> 0 <= #[trigger] order[k] < chunk_count(data.len()),
        super::chunk::covers(data, order),
        !order.drop_last().contains(order.last()),
    ensures
        link_ins(pending, picked(id, data, order)) == Seq::new(
            order.len(),
            |k: int|
                if k == order.len() - 1 {
                    LinkInView::Frame(data)
                } else {
                    LinkInView::Other
                },
        ),
{
    law_reassembly(pending, id, data, order);
    let pkts = picked(id, data, order);
    assert forall|k: int| 0 <= k < pkts.len() implies #[trigger] pkts[k] != ping_bytes() && pkts[k]
        != pong_bytes() by {
        law_frames_are_no_probes(id, data, order[k]);
    }
    lemma_link_ins(pending, pkts);
    assert(link_ins(pending, pkts) =~= Seq::new(
        order.len(),
        |k: int|
            if k == order.len() - 1 {
                LinkInView::Frame(data)
            } else {
                LinkInView::Other
            },
    ));
}

proof fn lemma_link_ins(pending: Map<u32, Parts>, pkts: Seq<Seq<u8>>)
    requires
        forall|k: int|
            0 <= k < pkts.len() ==> #[trigger] pkts[k] != ping_bytes() && pkts[k] != pong_bytes(),
    ensures
        link_ins(pending, pkts).len() == pkts.len(),
        fed_all(pending, pkts).1.len() == pkts.len(),
        forall|k: int|
            0 <= k < pkts.len() ==> #[trigger] link_ins(pending, pkts)[k] == match fed_all(
                pending,
                pkts,
            ).1[k] {
                Some(frame) => LinkInView::Frame(frame),
                None => LinkInView::Other,
            },
    decreases pkts.len(),
{
    if pkts.len() > 0 {
        let front = pkts.drop_last();
        assert forall|k: int| 0 <= k < front.len() implies #[trigger] front[k] != ping_bytes()
            && front[k] != pong_bytes() by {
            assert(pkts[k] == front[k]);
        }
        lemma_link_ins(pending, front);
        assert(pkts[pkts.len() - 1] == pkts.last());
    }
}

/// A link that ends leaves neither its slot nor its peer's live entry behind.
pub proof fn law_link_leaves_nothing(net: NetView, node_id: Seq<char>, conn: u64)
    ensures
        ({
            let down = link_ended(net, node_id, conn).0;
            &&& !owns_slot(down, node_id, conn)
            &&& !down.p2p_conns.contains_key(node_id)
        }),
{
}

} // verus!
