//! Live links: how they come up, what keeps them, and how they go.

use vstd::prelude::*;

use crate::engine::{NetCtx, NetView};
use crate::events::{effects, Effect, EffectView, EventView};
use crate::model::{EnvelopeView, WsFrame, WsFrameView};
use crate::net::{dotted, law_ipv4_round_trip, Endpoint, Ipv4};
use crate::signal::{candidates_view, Candidate, CandidateView};
use crate::text::{decimal, opt_text};
use crate::transport::chunk::{chunk_datagrams, Reassembler};
use crate::transport::punch::{
    gather_candidates, punch_ping, punch_pong, to_addrs, ConfirmIn, ConfirmTick, LinkIn, LinkInView,
    PunchLink, PunchTarget, PunchTargetView, RoundTrip,
};
use crate::transport::rtc::{read_wait, RtcEvent, RtcLink, RtcReply};
use crate::transport::ws::{
    hello, holds_slot, release_slot, ws_connect, WsInput, WsInputView, WsReply, WsReplyView,
    WsSession,
};
use crate::transport::{
    drop_live, live_peers, live_snapshot, mark_live, touch_live, P2pConn, TransportKind,
};
use crate::traversal::punch::{is_probe, HolePunch, PunchTick};

verus! {

/// A peer that is marked live is live from then on, was heard of now, and the UI is told of
/// it if it was not live before. A link that was there keeps its kind, and its address
/// unless a new one is known. No other link is touched.
pub proof fn law_marked_live(
    ctx: &mut NetCtx,
    node_id: &str,
    kind: TransportKind,
    addr: Option<Endpoint>,
    now: u64,
    r: Vec<Effect>,
)
    requires
        call_ensures(mark_live, (ctx, node_id, kind, addr, now), r),
    ensures
        final(ctx)@ == (NetView {
            p2p_conns: old(ctx)@.p2p_conns.insert(node_id@, final(ctx)@.p2p_conns[node_id@]),
            ..old(ctx)@
        }),
        final(ctx)@.p2p_conns[node_id@].last_seen == now,
        !old(ctx)@.p2p_conns.contains_key(node_id@) ==> {
            &&& final(ctx)@.p2p_conns[node_id@].kind == kind
            &&& final(ctx)@.p2p_conns[node_id@].addr == addr
            &&& effects(r@) == seq![
                EffectView::Emit(EventView::PeerConnected { node_id: node_id@, transport: kind }),
            ]
        },
        old(ctx)@.p2p_conns.contains_key(node_id@) ==> {
            let was = old(ctx)@.p2p_conns[node_id@];
            &&& final(ctx)@.p2p_conns[node_id@].kind == was.kind
            &&& addr is Some ==> final(ctx)@.p2p_conns[node_id@].addr == addr
            &&& addr is None ==> final(ctx)@.p2p_conns[node_id@].addr == was.addr
            &&& effects(r@).len() == 0
        },
{
}

/// A sign of life stamps a live link and does nothing else; it makes no link live.
pub proof fn law_touched_live(ctx: &mut NetCtx, node_id: &str, now: u64)
    requires
        call_ensures(touch_live, (ctx, node_id, now), ()),
    ensures
        !old(ctx)@.p2p_conns.contains_key(node_id@) ==> final(ctx)@ == old(ctx)@,
        old(ctx)@.p2p_conns.contains_key(node_id@) ==> final(ctx)@ == (NetView {
            p2p_conns: old(ctx)@.p2p_conns.insert(
                node_id@,
                P2pConn {
                    kind: old(ctx)@.p2p_conns[node_id@].kind,
                    last_seen: now,
                    addr: old(ctx)@.p2p_conns[node_id@].addr,
                },
            ),
            ..old(ctx)@
        }),
{
}

/// A peer that is dropped is live no more, and the UI is told if it was.
pub proof fn law_dropped_live(ctx: &mut NetCtx, node_id: &str, r: Vec<Effect>)
    requires
        call_ensures(drop_live, (ctx, node_id), r),
    ensures
        final(ctx)@ == (NetView {
            p2p_conns: old(ctx)@.p2p_conns.remove(node_id@),
            ..old(ctx)@
        }),
        old(ctx)@.p2p_conns.contains_key(node_id@) ==> effects(r@) == seq![
            EffectView::Emit(EventView::PeerDisconnected { node_id: node_id@ }),
        ],
        !old(ctx)@.p2p_conns.contains_key(node_id@) ==> effects(r@).len() == 0,
{
}

/// A snapshot lists every live peer, with what is known of its link.
pub proof fn law_snapshots(
    ctx: NetCtx,
    id: Seq<char>,
    peers: Vec<(String, TransportKind, Option<Endpoint>)>,
    seen: Vec<(String, TransportKind, u64)>,
)
    requires
        ctx.p2p_conns.wf(),
        call_ensures(live_peers, (&ctx,), peers),
        call_ensures(live_snapshot, (&ctx,), seen),
    ensures
        peers@.len() == ctx@.p2p_conns.len(),
        seen@.len() == ctx@.p2p_conns.len(),
        ctx@.p2p_conns.contains_key(id) ==> {
            let c = ctx@.p2p_conns[id];
            &&& exists|i: int|
                0 <= i < peers@.len() && (#[trigger] peers@[i]).0@ == id && peers@[i].1 == c.kind
                    && peers@[i].2 == c.addr
            &&& exists|i: int|
                0 <= i < seen@.len() && (#[trigger] seen@[i]).0@ == id && seen@[i].1 == c.kind
                    && seen@[i].2 == c.last_seen
        },
{
    ctx.p2p_conns.law_lists_the_map();
    let keys = ctx.p2p_conns.keys_spec();
    if ctx@.p2p_conns.contains_key(id) {
        assert(keys.to_set().contains(id));
        let i = keys.index_of(id);
        assert(keys[i] == id);
        assert(peers@[i].0@ == id);
        assert(seen@[i].0@ == id);
    }
}

/// On a fresh socket a device says who it is.
pub proof fn law_hello(ctx: NetCtx, r: WsFrame)
    requires
        call_ensures(hello, (&ctx,), r),
    ensures
        r@ == (WsFrameView::Hello { node_id: ctx@.identity.node_id, name: ctx@.identity.name }),
{
}

/// A peer that announces itself on a socket has its link there and is live from then on, and
/// the UI is told; one that has a link already loses the new socket, and nothing changes. A
/// frame with a message is delivered as it is.
pub proof fn law_ws_input(
    s: &mut WsSession,
    ctx: &mut NetCtx,
    input: WsInput,
    now: u64,
    r: WsReply,
)
    requires
        call_ensures(WsSession::on_input, (s, ctx, input, now), r),
    ensures
        final(s).conn_id == old(s).conn_id,
        input@ matches WsInputView::Frame(WsFrameView::Hello { node_id, name }) ==> {
            &&& old(ctx)@.ws_conns.contains_key(node_id) ==> r@ is Stop && final(ctx)@ == old(ctx)@
                && opt_text(final(s).peer_id) == opt_text(old(s).peer_id)
            &&& !old(ctx)@.ws_conns.contains_key(node_id) ==> {
                &&& opt_text(final(s).peer_id) == Some(node_id)
                &&& final(ctx)@ == (NetView {
                    ws_conns: old(ctx)@.ws_conns.insert(node_id, old(s).conn_id),
                    p2p_conns: old(ctx)@.p2p_conns.insert(
                        node_id,
                        final(ctx)@.p2p_conns[node_id],
                    ),
                    ..old(ctx)@
                })
                &&& final(ctx)@.p2p_conns[node_id].last_seen == now
                &&& !old(ctx)@.p2p_conns.contains_key(node_id) ==> {
                    &&& final(ctx)@.p2p_conns[node_id].kind == TransportKind::Ws
                    &&& final(ctx)@.p2p_conns[node_id].addr is None
                    &&& r@ == WsReplyView::Perform(
                        seq![
                            EffectView::Emit(EventView::WsConnected { node_id }),
                            EffectView::Emit(
                                EventView::PeerConnected { node_id, transport: TransportKind::Ws },
                            ),
                        ],
                    )
                }
                &&& old(ctx)@.p2p_conns.contains_key(node_id) ==> {
                    &&& final(ctx)@.p2p_conns[node_id].kind == old(ctx)@.p2p_conns[node_id].kind
                    &&& r@ == WsReplyView::Perform(
                        seq![EffectView::Emit(EventView::WsConnected { node_id })],
                    )
                }
            }
        },
        input@ matches WsInputView::Frame(WsFrameView::Msg { nonce, ciphertext }) ==> r@
            == WsReplyView::Deliver(EnvelopeView { nonce, ciphertext }),
        input@ is Idle ==> r@ is Nothing,
        input@ is Closed ==> r@ is Stop,
        !(input@ matches WsInputView::Frame(WsFrameView::Hello { .. })) ==> final(ctx)@ == old(
            ctx,
        )@ && opt_text(final(s).peer_id) == opt_text(old(s).peer_id),
{
    if let WsInputView::Frame(WsFrameView::Hello { node_id, name }) = input@ {
        if !old(ctx)@.ws_conns.contains_key(node_id) {
            if old(ctx)@.p2p_conns.contains_key(node_id) {
                assert(r@ == WsReplyView::Perform(
                    seq![EffectView::Emit(EventView::WsConnected { node_id })],
                ));
            } else {
                assert(r@ == WsReplyView::Perform(
                    seq![
                        EffectView::Emit(EventView::WsConnected { node_id }),
                        EffectView::Emit(
                            EventView::PeerConnected { node_id, transport: TransportKind::Ws },
                        ),
                    ],
                ));
            }
        }
    }
}

/// What an announcement does it does by whichever way it comes in.
pub proof fn law_ws_hello(
    s: &mut WsSession,
    ctx: &mut NetCtx,
    node_id: String,
    now: u64,
    r: Option<Vec<Effect>>,
)
    requires
        call_ensures(WsSession::on_hello, (s, ctx, node_id, now), r),
    ensures
        final(s).conn_id == old(s).conn_id,
        r is None <==> old(ctx)@.ws_conns.contains_key(node_id@),
        r is None ==> final(ctx)@ == old(ctx)@,
        r is Some ==> {
            &&& opt_text(final(s).peer_id) == Some(node_id@)
            &&& final(ctx)@.ws_conns == old(ctx)@.ws_conns.insert(node_id@, old(s).conn_id)
            &&& final(ctx)@.p2p_conns.contains_key(node_id@)
            &&& final(ctx)@.p2p_conns[node_id@].last_seen == now
            &&& effects(r->0@).len() > 0
            &&& effects(r->0@)[0] == EffectView::Emit(EventView::WsConnected { node_id: node_id@ })
        },
{
}

/// A socket that closes takes down the link of the peer that announced itself on it, where
/// that link is still this one, and the UI is told; else it leaves everything alone.
pub proof fn law_ws_close(s: WsSession, ctx: &mut NetCtx, r: Vec<Effect>)
    requires
        call_ensures(WsSession::on_close, (&s, ctx), r),
    ensures
        s.peer_id is None ==> final(ctx)@ == old(ctx)@ && effects(r@).len() == 0,
        s.peer_id matches Some(p) ==> {
            let own = old(ctx)@.ws_conns.contains_key(p@) && old(ctx)@.ws_conns[p@] == s.conn_id;
            &&& !own ==> final(ctx)@ == old(ctx)@ && effects(r@).len() == 0
            &&& own ==> {
                &&& final(ctx)@ == (NetView {
                    ws_conns: old(ctx)@.ws_conns.remove(p@),
                    p2p_conns: old(ctx)@.p2p_conns.remove(p@),
                    ..old(ctx)@
                })
                &&& effects(r@) == if old(ctx)@.p2p_conns.contains_key(p@) {
                    seq![
                        EffectView::Emit(EventView::WsDisconnected { node_id: p@ }),
                        EffectView::Emit(EventView::PeerDisconnected { node_id: p@ }),
                    ]
                } else {
                    seq![EffectView::Emit(EventView::WsDisconnected { node_id: p@ })]
                }
            }
        },
{
    if let Some(p) = s.peer_id {
        if old(ctx)@.ws_conns.contains_key(p@) && old(ctx)@.ws_conns[p@] == s.conn_id {
            if old(ctx)@.p2p_conns.contains_key(p@) {
                assert(effects(r@) =~= seq![
                    EffectView::Emit(EventView::WsDisconnected { node_id: p@ }),
                    EffectView::Emit(EventView::PeerDisconnected { node_id: p@ }),
                ]);
            } else {
                assert(effects(r@) =~= seq![
                    EffectView::Emit(EventView::WsDisconnected { node_id: p@ }),
                ]);
            }
        }
    }
}

/// A slot is given up by the link that has it and by no other.
pub proof fn law_slot(ctx: &mut NetCtx, node_id: &str, conn: u64, had: bool, gave: bool)
    requires
        call_ensures(holds_slot, (&*old(ctx), node_id, conn), had),
        call_ensures(release_slot, (ctx, node_id, conn), gave),
    ensures
        had == gave,
        had <==> old(ctx)@.ws_conns.contains_key(node_id@) && old(ctx)@.ws_conns[node_id@] == conn,
        gave ==> final(ctx)@ == (NetView {
            ws_conns: old(ctx)@.ws_conns.remove(node_id@),
            ..old(ctx)@
        }),
        !gave ==> final(ctx)@ == old(ctx)@,
{
}

/// A WebSocket is dialed at the peer's address and port, and asked for by the same.
pub proof fn law_ws_is_dialed(
    ip: &str,
    ws_port: u16,
    a: Ipv4,
    r: Result<(Endpoint, String), String>,
)
    requires
        call_ensures(ws_connect, (ip, ws_port), r),
    ensures
        ip@ == dotted(a) ==> {
            &&& r matches Ok(t)
            &&& t.0 == (Endpoint { ip: a, port: ws_port })
            &&& t.1@ == "ws://"@ + ip@ + ":"@ + decimal(ws_port as nat) + "/"@
        },
        (forall|x: Ipv4| #[trigger] dotted(x) != ip@) ==> (r matches Err(t) && t@ == "bad peer ip"@),
{
    law_ipv4_round_trip(a);
}

/// The first open channel of a WebRTC connection registers its peer, whoever had its slot,
/// and no later one does; frames are delivered as they came; a closed channel disconnects, a
/// failure stops.
pub proof fn law_rtc_event(
    l: &mut RtcLink,
    ctx: &mut NetCtx,
    event: RtcEvent,
    now: u64,
    r: RtcReply,
)
    requires
        call_ensures(RtcLink::on_event, (l, ctx, event, now), r),
    ensures
        final(l).node_id == old(l).node_id,
        final(l).conn_id == old(l).conn_id,
        final(l).registered <==> old(l).registered || event is Opened,
        event is Opened && !old(l).registered ==> {
            let id = old(l).node_id@;
            &&& final(ctx)@ == (NetView {
                ws_conns: old(ctx)@.ws_conns.insert(id, old(l).conn_id),
                p2p_conns: old(ctx)@.p2p_conns.insert(id, final(ctx)@.p2p_conns[id]),
                ..old(ctx)@
            })
            &&& final(ctx)@.p2p_conns[id].last_seen == now
            &&& r matches RtcReply::Perform(out)
            &&& !old(ctx)@.p2p_conns.contains_key(id) ==> {
                &&& final(ctx)@.p2p_conns[id].kind == TransportKind::WebRtc
                &&& effects(out@) == seq![
                    EffectView::Emit(
                        EventView::PeerConnected { node_id: id, transport: TransportKind::WebRtc },
                    ),
                ]
            }
            &&& old(ctx)@.p2p_conns.contains_key(id) ==> {
                &&& final(ctx)@.p2p_conns[id].kind == old(ctx)@.p2p_conns[id].kind
                &&& effects(out@).len() == 0
            }
        },
        event is Opened && old(l).registered ==> (r matches RtcReply::Perform(out) && effects(
            out@,
        ).len() == 0),
        event matches RtcEvent::Data(bytes) ==> (r matches RtcReply::Deliver(b) && b@ == bytes@),
        event is Closed ==> r is Disconnect,
        event is Failed ==> r is Stop,
        event is Other ==> r is Nothing,
        !(event is Opened) || old(l).registered ==> final(ctx)@ == old(ctx)@,
{
}

/// A WebRTC connection goes on while it is not registered, or while its slot is its own and
/// its peer live. When it is done it leaves everything alone if it was not registered; else
/// its peer is dropped, and its slot given up if it was its own.
pub proof fn law_rtc_end(l: RtcLink, ctx: &mut NetCtx, up: bool, r: Vec<Effect>)
    requires
        call_ensures(RtcLink::still_up, (&l, &*old(ctx)), up),
        call_ensures(RtcLink::cleanup, (&l, ctx), r),
    ensures
        ({
            let id = l.node_id@;
            let own = old(ctx)@.ws_conns.contains_key(id) && old(ctx)@.ws_conns[id] == l.conn_id;
            let live = old(ctx)@.p2p_conns.contains_key(id);
            &&& up <==> !l.registered || (own && live)
            &&& !l.registered ==> final(ctx)@ == old(ctx)@ && effects(r@).len() == 0
            &&& l.registered ==> {
                &&& final(ctx)@ == (NetView {
                    ws_conns: if own {
                        old(ctx)@.ws_conns.remove(id)
                    } else {
                        old(ctx)@.ws_conns
                    },
                    p2p_conns: old(ctx)@.p2p_conns.remove(id),
                    ..old(ctx)@
                })
                &&& live ==> effects(r@) == seq![
                    EffectView::Emit(EventView::PeerDisconnected { node_id: id }),
                ]
                &&& !live ==> effects(r@).len() == 0
            }
        }),
{
}

/// A wait for a datagram lasts until the connection wants to be woken, but at least one and
/// at most 250 milliseconds.
pub proof fn law_read_wait(wake: u64, now: u64, r: u64)
    requires
        call_ensures(read_wait, (wake, now), r),
    ensures
        1 <= r <= 250,
        wake <= now ==> r == 1,
        now < wake <= now + 250 ==> r == wake - now,
        wake > now + 250 ==> r == 250,
{
}

/// A device offers its own address with the port of the socket, unless it has none, and then
/// the address that a server saw, if one did; and with neither it offers nothing.
pub proof fn law_gathered(
    ctx: NetCtx,
    port: u16,
    reflexive: Option<Endpoint>,
    r: Option<Vec<Candidate>>,
)
    requires
        call_ensures(gather_candidates, (&ctx, port, reflexive), r),
    ensures
        ({
            let ip = ctx@.identity.ip;
            let reachable = ip.len() > 0 && ip != "0.0.0.0"@;
            let host = CandidateView { ip, port, kind: "host"@ };
            &&& r is None <==> !reachable && reflexive is None
            &&& reachable && reflexive is None ==> (r matches Some(v) && candidates_view(v@) == seq![host])
            &&& reflexive matches Some(e) ==> {
                let seen = CandidateView { ip: dotted(e.ip), port: e.port, kind: "srflx"@ };
                &&& r matches Some(v)
                &&& candidates_view(v@) == if reachable {
                    seq![host, seen]
                } else {
                    seq![seen]
                }
            }
        }),
{
    let ip = ctx@.identity.ip;
    let host = CandidateView { ip, port, kind: "host"@ };
    if let Some(e) = reflexive {
        let seen = CandidateView { ip: dotted(e.ip), port: e.port, kind: "srflx"@ };
        let offered = crate::transport::punch::gathered(ip, port, reflexive);
        if ip.len() > 0 && ip != "0.0.0.0"@ {
            assert(offered =~= seq![host, seen]);
        } else {
            assert(offered =~= seq![seen]);
        }
        assert(offered.len() > 0);
    } else if let Some(v) = r {
        assert(candidates_view(v@).len() == v@.len());
    }
}

/// The candidates that are IPv4 addresses are punched toward at their own ports, in the
/// order they came in.
pub proof fn law_targets(cands: Vec<Candidate>, ips: Seq<Ipv4>, r: Vec<PunchTarget>)
    requires
        call_ensures(to_addrs, (&cands,), r),
        ips.len() == cands@.len(),
        forall|i: int| 0 <= i < ips.len() ==> (#[trigger] cands@[i])@.ip == dotted(ips[i]),
    ensures
        r@.len() == cands@.len(),
        forall|i: int|
            0 <= i < r@.len() ==> (#[trigger] r@[i])@ == PunchTargetView::V4(
                Endpoint { ip: ips[i], port: cands@[i]@.port },
            ),
{
    let all = candidates_view(cands@);
    assert forall|i: int| 0 <= i < all.len() implies (#[trigger] all[i]).ip == dotted(ips[i]) by {
        assert(cands@[i]@ == all[i]);
    }
    lemma_targets(all, ips);
    let got = crate::transport::punch::targets_view(r@);
    assert(got.len() == r@.len() && all.len() == cands@.len());
    assert forall|i: int| 0 <= i < r@.len() implies (#[trigger] r@[i])@ == PunchTargetView::V4(
        Endpoint { ip: ips[i], port: cands@[i]@.port },
    ) by {
        assert(got[i] == r@[i]@);
        assert(all[i] == cands@[i]@);
    }
}

/// One candidate is punched toward where it is an IPv4 address or a bracketed one, and passed
/// over where it is neither; of several each is, in order.
pub proof fn law_each_target(
    one: Vec<Candidate>,
    a: Vec<Candidate>,
    b: Vec<Candidate>,
    both: Vec<Candidate>,
    to_one: Vec<PunchTarget>,
    to_a: Vec<PunchTarget>,
    to_b: Vec<PunchTarget>,
    to_both: Vec<PunchTarget>,
)
    requires
        one@.len() == 1,
        candidates_view(both@) == candidates_view(a@) + candidates_view(b@),
        call_ensures(to_addrs, (&one,), to_one),
        call_ensures(to_addrs, (&a,), to_a),
        call_ensures(to_addrs, (&b,), to_b),
        call_ensures(to_addrs, (&both,), to_both),
    ensures
        crate::transport::punch::targets_view(to_both@) == crate::transport::punch::targets_view(
            to_a@,
        ) + crate::transport::punch::targets_view(to_b@),
        (forall|x: Ipv4| #[trigger] dotted(x) != one@[0]@.ip) ==> {
            let c = one@[0]@;
            let bracketed = c.ip.len() > 0 && c.ip[0] == '[';
            &&& !bracketed ==> to_one@.len() == 0
            &&& bracketed ==> to_one@.len() == 1 && to_one@[0]@ == PunchTargetView::Bracketed(
                c.ip + ":"@ + decimal(c.port as nat),
            )
        },
{
    lemma_targets_append(candidates_view(a@), candidates_view(b@));
    let all = candidates_view(one@);
    let got = crate::transport::punch::targets_view(to_one@);
    assert(all.len() == 1 && all.last() == one@[0]@);
    assert(all.drop_last() =~= Seq::empty());
    reveal_with_fuel(crate::transport::punch::targets_of, 2);
    assert(got.len() == to_one@.len());
    if to_one@.len() > 0 {
        assert(got[0] == to_one@[0]@);
    }
}

proof fn lemma_targets_append(a: Seq<CandidateView>, b: Seq<CandidateView>)
    ensures
        crate::transport::punch::targets_of(a + b) == crate::transport::punch::targets_of(a)
            + crate::transport::punch::targets_of(b),
    decreases b.len(),
{
    if b.len() == 0 {
        assert(a + b =~= a);
        assert(crate::transport::punch::targets_of(a) + crate::transport::punch::targets_of(b)
            =~= crate::transport::punch::targets_of(a));
    } else {
        lemma_targets_append(a, b.drop_last());
        assert((a + b).drop_last() =~= a + b.drop_last());
        assert((a + b).last() == b.last());
        assert(crate::transport::punch::targets_of(a + b)
            =~= crate::transport::punch::targets_of(a) + crate::transport::punch::targets_of(b));
    }
}

proof fn lemma_targets(all: Seq<CandidateView>, ips: Seq<Ipv4>)
    requires
        ips.len() == all.len(),
        forall|i: int| 0 <= i < all.len() ==> (#[trigger] all[i]).ip == dotted(ips[i]),
    ensures
        crate::transport::punch::targets_of(all) == Seq::new(
            all.len(),
            |i: int| PunchTargetView::V4(Endpoint { ip: ips[i], port: all[i].port }),
        ),
    decreases all.len(),
{
    let want = Seq::new(
        all.len(),
        |i: int| PunchTargetView::V4(Endpoint { ip: ips[i], port: all[i].port }),
    );
    if all.len() > 0 {
        let n = all.len() - 1;
        assert forall|i: int| 0 <= i < n implies (#[trigger] all.drop_last()[i]).ip == dotted(
            ips.drop_last()[i],
        ) by {
            assert(all[i].ip == dotted(ips[i]));
        }
        lemma_targets(all.drop_last(), ips.drop_last());
        assert(all[n].ip == dotted(ips[n]));
        law_ipv4_round_trip(ips[n]);
        assert(crate::transport::punch::targets_of(all) =~= want);
    } else {
        assert(crate::transport::punch::targets_of(all) =~= want);
    }
}

/// The probe and the answer to it are `mdpunch1` and `mdpong01`.
pub proof fn law_probe_bytes(ping: [u8; 8], pong: [u8; 8])
    requires
        call_ensures(punch_ping, (), ping),
        call_ensures(punch_pong, (), pong),
    ensures
        ping@ == seq![0x6du8, 0x64, 0x70, 0x75, 0x6e, 0x63, 0x68, 0x31],
        pong@ == seq![0x6du8, 0x64, 0x70, 0x6f, 0x6e, 0x67, 0x30, 0x31],
        crate::transport::punch::PUNCH_MS == 8000,
        crate::transport::punch::CONFIRM_MS == 3000,
        crate::transport::punch::CONFIRM_EVERY_MS == 150,
        crate::transport::punch::KEEPALIVE_MS == 3000,
        crate::traversal::punch::PROBE_EVERY_MS == 50,
{
    assert(ping@ =~= seq![0x6du8, 0x64, 0x70, 0x75, 0x6e, 0x63, 0x68, 0x31]);
    assert(pong@ =~= seq![0x6du8, 0x64, 0x70, 0x6f, 0x6e, 0x67, 0x30, 0x31]);
}

/// A hole punch ends when its time is up and not before. Until then it probes at once, and
/// again as soon as fifty milliseconds have passed since the last probe.
pub proof fn law_hole_punch(
    start: u64,
    total: u64,
    fresh: HolePunch,
    p: &mut HolePunch,
    now: u64,
    r: PunchTick,
)
    requires
        call_ensures(HolePunch::new, (start, total), fresh),
        call_ensures(HolePunch::tick, (p, now), r),
    ensures
        fresh.last_send is None,
        start + total <= u64::MAX ==> fresh.deadline == start + total,
        start + total > u64::MAX ==> fresh.deadline == u64::MAX,
        final(p).deadline == old(p).deadline,
        r is Expired <==> now >= old(p).deadline,
        now < old(p).deadline && old(p).last_send is None ==> r == (PunchTick::Wait {
            probe: true,
        }),
        now < old(p).deadline ==> (old(p).last_send matches Some(t) ==> r == (PunchTick::Wait {
            probe: now >= t + 50,
        })),
        r == (PunchTick::Wait { probe: true }) ==> final(p).last_send == Some(now),
        r != (PunchTick::Wait { probe: true }) ==> final(p).last_send == old(p).last_send,
{
}

/// A datagram is a probe where it begins with the probe's bytes.
pub proof fn law_is_probe(pkt: &[u8], magic: &[u8], r: bool)
    requires
        call_ensures(is_probe, (pkt, magic), r),
    ensures
        r <==> magic@.len() <= pkt@.len() && forall|i: int|
            0 <= i < magic@.len() ==> pkt@[i] == magic@[i],
{
    if r {
        assert forall|i: int| 0 <= i < magic@.len() implies pkt@[i] == magic@[i] by {
            assert(pkt@.subrange(0, magic@.len() as int)[i] == magic@[i]);
        }
    } else if magic@.len() <= pkt@.len() && forall|i: int|
        0 <= i < magic@.len() ==> pkt@[i] == magic@[i] {
        assert(pkt@.subrange(0, magic@.len() as int) =~= magic@);
    }
}

/// A round trip is tried for three seconds, with a ping at once and every 150 milliseconds,
/// to where the peer was last heard from.
pub proof fn law_round_trip_tick(
    start: u64,
    peer: Endpoint,
    fresh: RoundTrip,
    t: &mut RoundTrip,
    now: u64,
    r: ConfirmTick,
)
    requires
        call_ensures(RoundTrip::new, (start, peer), fresh),
        call_ensures(RoundTrip::tick, (t, now), r),
    ensures
        fresh.peer == peer && fresh.last_ping is None,
        start + 3000 <= u64::MAX ==> fresh.deadline == start + 3000,
        final(t).peer == old(t).peer && final(t).deadline == old(t).deadline,
        r is Expired <==> now >= old(t).deadline,
        now < old(t).deadline && old(t).last_ping is None ==> r == (ConfirmTick::Wait {
            ping: Some(old(t).peer),
        }),
        now < old(t).deadline ==> (old(t).last_ping matches Some(last) ==> r == (
        ConfirmTick::Wait {
            ping: if now >= last + 150 {
                Some(old(t).peer)
            } else {
                None
            },
        })),
        r matches ConfirmTick::Wait { ping: Some(_) } ==> final(t).last_ping == Some(now),
        !(r matches ConfirmTick::Wait { ping: Some(_) }) ==> final(t).last_ping == old(t).last_ping,
{
}

/// Only the answer to our own ping proves a round trip. The peer's ping is answered where it
/// came from, and that is where our pings then go.
pub proof fn law_round_trip_packet(
    t: &mut RoundTrip,
    pkt: &[u8],
    src: Endpoint,
    ping: [u8; 8],
    pong: [u8; 8],
    r: ConfirmIn,
)
    requires
        call_ensures(punch_ping, (), ping),
        call_ensures(punch_pong, (), pong),
        call_ensures(RoundTrip::on_packet, (t, pkt, src), r),
    ensures
        pkt@ == pong@ ==> r == ConfirmIn::Proven(src) && *final(t) == *old(t),
        pkt@ == ping@ ==> r == ConfirmIn::Reply(src) && *final(t) == (RoundTrip {
            peer: src,
            ..*old(t)
        }),
        pkt@ != ping@ && pkt@ != pong@ ==> r is Other && *final(t) == *old(t),
{
    assert(ping@[3] != pong@[3]) by {
        crate::transport::punch::law_frames_are_no_probes(0, Seq::empty(), 0);
        assert(ping@[3] == 0x75 && pong@[3] == 0x6f);
    }
}

/// A proven link takes the peer's slot and makes it live, as a punched link at the proven
/// address, and the UI is told; a peer that has a link keeps that one, and nothing changes.
pub proof fn law_punched_link(
    ctx: &mut NetCtx,
    node_id: &str,
    conn_id: u64,
    peer: Endpoint,
    now_secs: u64,
    now: u64,
    r: Option<(PunchLink, Vec<Effect>)>,
)
    requires
        call_ensures(PunchLink::establish, (ctx, node_id, conn_id, peer, now_secs, now), r),
    ensures
        r is None <==> old(ctx)@.ws_conns.contains_key(node_id@),
        r is None ==> final(ctx)@ == old(ctx)@,
        r matches Some(t) ==> {
            let id = node_id@;
            &&& t.0@.node_id == id
            &&& t.0@.conn_id == conn_id
            &&& t.0@.peer == peer
            &&& t.0@.next_msg_id == 0
            &&& t.0@.last_keepalive == now
            &&& final(ctx)@ == (NetView {
                ws_conns: old(ctx)@.ws_conns.insert(id, conn_id),
                p2p_conns: old(ctx)@.p2p_conns.insert(id, final(ctx)@.p2p_conns[id]),
                ..old(ctx)@
            })
            &&& final(ctx)@.p2p_conns[id].last_seen == now_secs
            &&& final(ctx)@.p2p_conns[id].addr == Some(peer)
            &&& !old(ctx)@.p2p_conns.contains_key(id) ==> {
                &&& final(ctx)@.p2p_conns[id].kind == TransportKind::Punch
                &&& effects(t.1@) == seq![
                    EffectView::Emit(
                        EventView::PeerConnected { node_id: id, transport: TransportKind::Punch },
                    ),
                ]
            }
            &&& old(ctx)@.p2p_conns.contains_key(id) ==> {
                &&& final(ctx)@.p2p_conns[id].kind == old(ctx)@.p2p_conns[id].kind
                &&& effects(t.1@).len() == 0
            }
        },
{
}

/// A datagram on a link is a ping, the answer to one, or part of a frame. Each of these but
/// an unfinished frame is a sign of life, and shows where the peer is; anything else is
/// passed over.
pub proof fn law_link_packet(
    l: &mut PunchLink,
    ctx: &mut NetCtx,
    pkt: &[u8],
    src: Endpoint,
    now_secs: u64,
    ping: [u8; 8],
    pong: [u8; 8],
    alone: &mut Reassembler,
    whole: Option<Vec<u8>>,
    r: LinkIn,
)
    requires
        call_ensures(punch_ping, (), ping),
        call_ensures(punch_pong, (), pong),
        call_ensures(PunchLink::on_packet, (l, ctx, pkt, src, now_secs), r),
        old(alone)@ == old(l)@.pending,
        call_ensures(Reassembler::reasm_feed, (alone, pkt), whole),
    ensures
        pkt@ == ping@ ==> r@ is Ping,
        pkt@ == pong@ ==> r@ is Pong,
        pkt@ != ping@ && pkt@ != pong@ ==> {
            &&& whole matches Some(frame) ==> r@ == LinkInView::Frame(frame@)
            &&& whole is None ==> r@ is Other
            &&& final(l)@.pending == final(alone)@
        },
        pkt@ == ping@ || pkt@ == pong@ ==> final(l)@.pending == old(l)@.pending,
        final(l)@.peer == if r@ is Other {
            old(l)@.peer
        } else {
            src
        },
        final(l)@.node_id == old(l)@.node_id,
        final(l)@.conn_id == old(l)@.conn_id,
        final(l)@.next_msg_id == old(l)@.next_msg_id,
        final(l)@.last_keepalive == old(l)@.last_keepalive,
        r@ is Other || !old(ctx)@.p2p_conns.contains_key(old(l)@.node_id) ==> final(ctx)@ == old(
            ctx,
        )@,
        !(r@ is Other) && old(ctx)@.p2p_conns.contains_key(old(l)@.node_id) ==> final(ctx)@ == (
        NetView {
            p2p_conns: old(ctx)@.p2p_conns.insert(
                old(l)@.node_id,
                P2pConn {
                    kind: old(ctx)@.p2p_conns[old(l)@.node_id].kind,
                    last_seen: now_secs,
                    addr: old(ctx)@.p2p_conns[old(l)@.node_id].addr,
                },
            ),
            ..old(ctx)@
        }),
{
    assert(ping@[3] == 0x75 && pong@[3] == 0x6f);
}

/// A frame goes out as the datagrams of one message, under an id of its own.
pub proof fn law_frame_goes_out(
    l: &mut PunchLink,
    frame: &str,
    bytes: &[u8],
    r: Vec<Vec<u8>>,
    chunks: Vec<Vec<u8>>,
)
    requires
        call_ensures(PunchLink::send_frame, (l, frame), r),
        bytes@ == vstd::utf8::encode_utf8(frame@),
        call_ensures(chunk_datagrams, (old(l)@.next_msg_id, bytes), chunks),
    ensures
        r@.len() == chunks@.len(),
        forall|i: int| 0 <= i < r@.len() ==> (#[trigger] r@[i])@ == chunks@[i]@,
        old(l)@.next_msg_id < u32::MAX ==> final(l)@.next_msg_id == old(l)@.next_msg_id + 1,
        old(l)@.next_msg_id == u32::MAX ==> final(l)@.next_msg_id == 0,
        final(l)@.node_id == old(l)@.node_id && final(l)@.conn_id == old(l)@.conn_id
            && final(l)@.peer == old(l)@.peer && final(l)@.pending == old(l)@.pending
            && final(l)@.last_keepalive == old(l)@.last_keepalive,
{
    let a = r@.map_values(|p: Vec<u8>| p@);
    let b = chunks@.map_values(|p: Vec<u8>| p@);
    assert(a == b);
    assert forall|i: int| 0 <= i < r@.len() implies (#[trigger] r@[i])@ == chunks@[i]@ by {
        assert(a[i] == r@[i]@ && b[i] == chunks@[i]@);
    }
}

/// An idle link is pinged every three seconds.
pub proof fn law_keepalive(l: &mut PunchLink, now: u64, r: bool)
    requires
        call_ensures(PunchLink::keepalive, (l, now), r),
    ensures
        r <==> now >= old(l)@.last_keepalive + 3000,
        r ==> final(l)@.last_keepalive == now,
        !r ==> final(l)@.last_keepalive == old(l)@.last_keepalive,
        final(l)@.node_id == old(l)@.node_id && final(l)@.conn_id == old(l)@.conn_id
            && final(l)@.peer == old(l)@.peer && final(l)@.pending == old(l)@.pending
            && final(l)@.next_msg_id == old(l)@.next_msg_id,
{
}

/// A punched link is up while its slot is its own and its peer live; when it ends, its peer
/// is dropped, and its slot given up if it was its own.
pub proof fn law_punched_link_ends(l: PunchLink, ctx: &mut NetCtx, up: bool, r: Vec<Effect>)
    requires
        call_ensures(PunchLink::still_up, (&l, &*old(ctx)), up),
        call_ensures(PunchLink::end, (&l, ctx), r),
    ensures
        ({
            let id = l@.node_id;
            let own = old(ctx)@.ws_conns.contains_key(id) && old(ctx)@.ws_conns[id] == l@.conn_id;
            let live = old(ctx)@.p2p_conns.contains_key(id);
            &&& up <==> own && live
            &&& final(ctx)@ == (NetView {
                ws_conns: if own {
                    old(ctx)@.ws_conns.remove(id)
                } else {
                    old(ctx)@.ws_conns
                },
                p2p_conns: old(ctx)@.p2p_conns.remove(id),
                ..old(ctx)@
            })
            &&& live ==> effects(r@) == seq![
                EffectView::Emit(EventView::PeerDisconnected { node_id: id }),
            ]
            &&& !live ==> effects(r@).len() == 0
        }),
{
}

} // verus!
