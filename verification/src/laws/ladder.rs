//! The connection ladder: which rung comes when, and what it asks for.

use vstd::prelude::*;

use crate::engine::ladder::{
    same_lan, Action, ActionView, Event, Ladder, LadderEventView, StageView,
};
use crate::engine::{Engine, NetCtx, NetView};
use crate::events::{effects, Effect, EffectView, EventView, OutgoingView};
use crate::json::{json_text, ItemView};
use crate::model::{Peer, PeerView, Source};
use crate::net::{dotted, law_ipv4_round_trip, Ipv4};
use crate::signal::SignalView;

verus! {

/// The word that the UI gets of a ladder.
pub open spec fn told(node_id: Seq<char>, stage: Seq<char>, detail: Option<Seq<char>>) -> Seq<
    EffectView,
> {
    seq![EffectView::Emit(EventView::ConnectProgress { node_id, stage, detail })]
}

/// Whether an action came to nothing.
pub open spec fn came_to_nothing(ev: LadderEventView) -> bool {
    ||| ev == LadderEventView::Done(false)
    ||| ev == LadderEventView::Live(false)
    ||| ev == LadderEventView::Candidates(None)
    ||| ev == LadderEventView::Sdp(None)
}

/// Whether a ladder has turned to the WebSocket of a peer that has an open one, and to a
/// signal that asks for one where it has not.
pub open spec fn turned_to_ws(
    node_id: Seq<char>,
    peer: PeerView,
    sid: Seq<char>,
    at: StageView,
    effects: Seq<EffectView>,
    action: ActionView,
) -> bool {
    if peer.ws_port != 0 && peer.ws_open && !peer.inbound_blocked {
        &&& at == StageView::WsDial
        &&& effects == told(node_id, "direct_ws"@, None)
        &&& action == (ActionView::DialWs { ip: peer.ip, ws_port: peer.ws_port })
    } else {
        &&& at == StageView::SignalSend
        &&& effects == told(node_id, "via_signal"@, None)
        &&& action == ActionView::Signal(SignalView::StartWs { sid })
    }
}

/// No rung is skipped. When an action comes to nothing the ladder goes on to the rung that
/// follows: after the ping the peer's WebSocket where it has an open one, else a signal;
/// after the WebSocket a signal; after the signal a hole punch; after the hole punch WebRTC;
/// and only when WebRTC has failed too does it say that there is no path.
pub proof fn law_failed_rung_falls_through(
    l: &mut Ladder,
    ctx: &mut NetCtx,
    ev: Event,
    sid: String,
    r: (Vec<Effect>, Action),
)
    requires
        call_ensures(Ladder::step_with, (l, ctx, ev, sid), r),
        came_to_nothing(ev@),
    ensures
        ({
            let from = old(l)@.at;
            let to = final(l)@.at;
            let id = old(l)@.node_id;
            &&& from is PingSend || from is PingWait ==> turned_to_ws(
                id,
                old(l)@.peer,
                sid@,
                to,
                effects(r.0@),
                r.1@,
            )
            &&& from is WsDial || from is WsWait ==> {
                &&& to == StageView::SignalSend
                &&& effects(r.0@) == told(id, "via_signal"@, None)
                &&& r.1@ == ActionView::Signal(SignalView::StartWs { sid: sid@ })
            }
            &&& from is SignalSend || from is SignalWait ==> {
                &&& to == StageView::PunchGather
                &&& effects(r.0@) == told(id, "punching"@, None)
                &&& r.1@ == ActionView::Gather
            }
            &&& from is PunchGather || from is PunchOffer || from is PunchAnswer
                || from is PunchWait ==> {
                &&& to == StageView::RtcCreate
                &&& effects(r.0@) == told(id, "webrtc"@, None)
                &&& r.1@ == ActionView::CreateOffer
            }
            &&& from is RtcCreate || from is RtcOffer || from is RtcAnswer || from is RtcApply
                || from is RtcWait ==> {
                &&& to == StageView::Finished
                &&& effects(r.0@) == told(id, "failed"@, Some("no reachable path"@))
                &&& r.1@ == ActionView::Stop
            }
        }),
{
}

/// A ladder that is not over ends only when the peer is live, or on the last rung.
pub proof fn law_ladder_ends_live_or_last(
    l: &mut Ladder,
    ctx: &mut NetCtx,
    ev: Event,
    sid: String,
    r: (Vec<Effect>, Action),
)
    requires
        call_ensures(Ladder::step_with, (l, ctx, ev, sid), r),
        !(old(l)@.at is Finished),
    ensures
        final(l)@.at is Finished <==> r.1@ is Stop,
        final(l)@.at is Finished ==> ev@ == LadderEventView::Live(true) || old(l)@.at is RtcCreate
            || old(l)@.at is RtcOffer || old(l)@.at is RtcAnswer || old(l)@.at is RtcApply
            || old(l)@.at is RtcWait,
        final(l)@.node_id == old(l)@.node_id,
        final(l)@.peer == old(l)@.peer,
        final(l)@.ticket == old(l)@.ticket,
{
}

/// A ladder that is over stays so.
pub proof fn law_finished_ladder_stays(
    l: &mut Ladder,
    ctx: &mut NetCtx,
    ev: Event,
    sid: String,
    r: (Vec<Effect>, Action),
)
    requires
        call_ensures(Ladder::step_with, (l, ctx, ev, sid), r),
        old(l)@.at is Finished,
    ensures
        final(l)@ == old(l)@,
        final(ctx)@ == old(ctx)@,
        r.1@ is Stop,
        effects(r.0@) == Seq::<EffectView>::empty(),
{
}

/// Once a rung's first action has worked the ladder stays on that rung and waits: two
/// seconds for the pong, three for the WebSocket, eight for the one that was asked for,
/// eight for the peer's candidates, ten for its SDP, twelve for WebRTC.
pub proof fn law_success_waits_on_the_rung(
    l: &mut Ladder,
    ctx: &mut NetCtx,
    ev: Event,
    sid: String,
    r: (Vec<Effect>, Action),
)
    requires
        call_ensures(Ladder::step_with, (l, ctx, ev, sid), r),
        ev@ == LadderEventView::Done(true),
        old(l)@.at is PingSend || old(l)@.at is WsDial || old(l)@.at is SignalSend
            || old(l)@.at is PunchOffer || old(l)@.at is RtcOffer || old(l)@.at is RtcApply,
    ensures
        final(ctx)@ == old(ctx)@,
        effects(r.0@) == Seq::<EffectView>::empty(),
        old(l)@.at is PingSend ==> final(l)@.at is PingWait && r.1@ == (ActionView::WaitLive {
            ms: 2000,
        }),
        old(l)@.at is WsDial ==> final(l)@.at is WsWait && r.1@ == (ActionView::WaitLive {
            ms: 3000,
        }),
        old(l)@.at is SignalSend ==> final(l)@.at is SignalWait && r.1@ == (ActionView::WaitLive {
            ms: 8000,
        }),
        old(l)@.at matches StageView::PunchOffer { sid: mine } ==> final(l)@.at
            == (StageView::PunchAnswer { sid: mine }) && r.1@ == (ActionView::AwaitCandidates {
            secs: 8,
        }),
        old(l)@.at matches StageView::RtcOffer { sid: mine } ==> final(l)@.at
            == (StageView::RtcAnswer { sid: mine }) && r.1@ == (ActionView::AwaitSdp { secs: 10 }),
        old(l)@.at is RtcApply ==> final(l)@.at is RtcWait && r.1@ == (ActionView::WaitLive {
            ms: 12000,
        }),
{
}

/// A peer that has become live ends the ladder, on whatever rung that happened. Only of the
/// ping is the UI told here: the other links tell of themselves.
pub proof fn law_live_peer_ends_the_ladder(
    l: &mut Ladder,
    ctx: &mut NetCtx,
    ev: Event,
    sid: String,
    r: (Vec<Effect>, Action),
)
    requires
        call_ensures(Ladder::step_with, (l, ctx, ev, sid), r),
        ev@ == LadderEventView::Live(true),
        old(l)@.at is PingWait || old(l)@.at is WsWait || old(l)@.at is SignalWait
            || old(l)@.at is PunchWait || old(l)@.at is RtcWait,
    ensures
        final(l)@.at is Finished,
        r.1@ is Stop,
        final(ctx)@ == old(ctx)@,
        old(l)@.at is PingWait ==> effects(r.0@) == told(
            old(l)@.node_id,
            "connected"@,
            Some("udp"@),
        ),
        !(old(l)@.at is PingWait) ==> effects(r.0@) == Seq::<EffectView>::empty(),
{
}

/// The candidates that were gathered are the ones that are offered, under an id that the
/// answer is then awaited under; and the ones that were answered are the ones that are
/// punched toward, and then nobody waits for an answer any more.
pub proof fn law_candidates_are_passed_on(
    l: &mut Ladder,
    ctx: &mut NetCtx,
    ev: Event,
    sid: String,
    r: (Vec<Effect>, Action),
)
    requires
        call_ensures(Ladder::step_with, (l, ctx, ev, sid), r),
        ev@ matches LadderEventView::Candidates(Some(_)),
    ensures
        ev@ matches LadderEventView::Candidates(Some(c)) && {
            &&& old(l)@.at is PunchGather ==> {
                &&& r.1@ == ActionView::Signal(
                    SignalView::PunchOffer { sid: sid@, candidates: c, start_in_ms: 0 },
                )
                &&& final(l)@.at == (StageView::PunchOffer { sid: sid@ })
                &&& final(ctx)@ == (NetView {
                    punch_waiters: old(ctx)@.punch_waiters.insert(sid@, old(l)@.ticket),
                    ..old(ctx)@
                })
                &&& effects(r.0@) == Seq::<EffectView>::empty()
            }
            &&& old(l)@.at matches StageView::PunchAnswer { sid: mine } ==> {
                &&& r.1@ == (ActionView::Punch { candidates: c, ms: 9000 })
                &&& final(l)@.at is PunchWait
                &&& final(ctx)@ == (NetView {
                    punch_waiters: old(ctx)@.punch_waiters.remove(mine),
                    ..old(ctx)@
                })
                &&& effects(r.0@) == Seq::<EffectView>::empty()
            }
        },
{
}

/// The SDP that was created is the one that is offered, under an id that the answer is then
/// awaited under; and the one that was answered is the one that is applied, and then nobody
/// waits for an answer any more.
pub proof fn law_sdp_is_passed_on(
    l: &mut Ladder,
    ctx: &mut NetCtx,
    ev: Event,
    sid: String,
    r: (Vec<Effect>, Action),
)
    requires
        call_ensures(Ladder::step_with, (l, ctx, ev, sid), r),
        ev@ matches LadderEventView::Sdp(Some(_)),
    ensures
        ev@ matches LadderEventView::Sdp(Some(s)) && {
            &&& old(l)@.at is RtcCreate ==> {
                &&& r.1@ == ActionView::Signal(SignalView::SdpOffer { sid: sid@, sdp: s })
                &&& final(l)@.at == (StageView::RtcOffer { sid: sid@ })
                &&& final(ctx)@ == (NetView {
                    rtc_waiters: old(ctx)@.rtc_waiters.insert(sid@, old(l)@.ticket),
                    ..old(ctx)@
                })
                &&& effects(r.0@) == Seq::<EffectView>::empty()
            }
            &&& old(l)@.at matches StageView::RtcAnswer { sid: mine } ==> {
                &&& r.1@ == (ActionView::ApplyAnswer { sdp: s })
                &&& final(l)@.at is RtcApply
                &&& final(ctx)@ == (NetView {
                    rtc_waiters: old(ctx)@.rtc_waiters.remove(mine),
                    ..old(ctx)@
                })
                &&& effects(r.0@) == Seq::<EffectView>::empty()
            }
        },
{
}

/// A negotiation that comes to nothing leaves no waiter; any other failure leaves the state
/// as it was.
pub proof fn law_failure_leaves_no_waiter(
    l: &mut Ladder,
    ctx: &mut NetCtx,
    ev: Event,
    sid: String,
    r: (Vec<Effect>, Action),
)
    requires
        call_ensures(Ladder::step_with, (l, ctx, ev, sid), r),
        came_to_nothing(ev@),
    ensures
        final(ctx)@ == (NetView {
            punch_waiters: match old(l)@.at {
                StageView::PunchOffer { sid: mine } => old(ctx)@.punch_waiters.remove(mine),
                StageView::PunchAnswer { sid: mine } => old(ctx)@.punch_waiters.remove(mine),
                _ => old(ctx)@.punch_waiters,
            },
            rtc_waiters: match old(l)@.at {
                StageView::RtcOffer { sid: mine } => old(ctx)@.rtc_waiters.remove(mine),
                StageView::RtcAnswer { sid: mine } => old(ctx)@.rtc_waiters.remove(mine),
                _ => old(ctx)@.rtc_waiters,
            },
            ..old(ctx)@
        }),
{
}

/// No rung is skipped by a ladder that draws its own ids either.
pub proof fn law_step_falls_through(
    l: &mut Ladder,
    ctx: &mut NetCtx,
    ev: Event,
    r: (Vec<Effect>, Action),
)
    requires
        call_ensures(Ladder::step, (l, ctx, ev), r),
        came_to_nothing(ev@),
    ensures
        old(l)@.at is PingSend || old(l)@.at is PingWait ==> exists|sid: Seq<char>| #[trigger]
            turned_to_ws(
                old(l)@.node_id,
                old(l)@.peer,
                sid,
                final(l)@.at,
                effects(r.0@),
                r.1@,
            ),
        old(l)@.at is WsDial || old(l)@.at is WsWait ==> final(l)@.at is SignalSend,
        old(l)@.at is SignalSend || old(l)@.at is SignalWait ==> final(l)@.at is PunchGather
            && r.1@ is Gather,
        old(l)@.at is PunchGather || old(l)@.at is PunchOffer || old(l)@.at is PunchAnswer
            || old(l)@.at is PunchWait ==> final(l)@.at is RtcCreate && r.1@ is CreateOffer,
        old(l)@.at is RtcCreate || old(l)@.at is RtcOffer || old(l)@.at is RtcAnswer
            || old(l)@.at is RtcApply || old(l)@.at is RtcWait ==> effects(r.0@) == told(
            old(l)@.node_id,
            "failed"@,
            Some("no reachable path"@),
        ) && r.1@ is Stop,
{
    let sid = choose|sid: Seq<char>| #[trigger]
        crate::ids::is_uuid_v4(sid) && ({
            let s = crate::engine::ladder::ladder_step(old(ctx)@, old(l)@, ev@, sid);
            &&& final(l)@ == (crate::engine::ladder::LadderView { at: s.at, ..old(l)@ })
            &&& effects(r.0@) == s.effects
            &&& r.1@ == s.action
        });
    assert(old(l)@.at is PingSend || old(l)@.at is PingWait ==> turned_to_ws(
        old(l)@.node_id,
        old(l)@.peer,
        sid,
        final(l)@.at,
        effects(r.0@),
        r.1@,
    ));
}

/// A ladder to a peer that is live needs no rung, one to a peer that is not known has none,
/// and the UI is told. Any other begins with a UDP ping where the peer was discovered on the
/// LAN or has an address in our /24, and with the peer's WebSocket or a signal elsewhere.
pub proof fn law_ladder_start(
    ctx: NetCtx,
    node_id: &str,
    ticket: u64,
    sid: String,
    mine: Ipv4,
    theirs: Ipv4,
    r: (Option<Ladder>, Vec<Effect>, Action),
)
    requires
        call_ensures(Ladder::start_with, (&ctx, node_id, ticket, sid), r),
        ctx@.identity.ip == dotted(mine),
        ctx@.peers.contains_key(node_id@) ==> ctx@.peers[node_id@].ip == dotted(theirs),
    ensures
        ctx@.p2p_conns.contains_key(node_id@) ==> {
            &&& r.0 is None
            &&& r.2@ is Stop
            &&& effects(r.1@) == told(node_id@, "connected"@, None)
        },
        !ctx@.p2p_conns.contains_key(node_id@) && !ctx@.peers.contains_key(node_id@) ==> {
            &&& r.0 is None
            &&& r.2@ is Stop
            &&& effects(r.1@) == told(node_id@, "failed"@, Some("peer not found"@))
        },
        !ctx@.p2p_conns.contains_key(node_id@) && ctx@.peers.contains_key(node_id@) ==> {
            let peer = ctx@.peers[node_id@];
            &&& r.0 matches Some(l)
            &&& l@.node_id == node_id@
            &&& l@.peer == peer
            &&& l@.ticket == ticket
            &&& if peer.source == Source::Lan || (mine.a == theirs.a && mine.b == theirs.b
                && mine.c == theirs.c) {
                &&& l@.at == StageView::PingSend
                &&& effects(r.1@) == told(node_id@, "udp_ping"@, None)
                &&& r.2@ == ActionView::Send(
                    OutgoingView {
                        from: ctx@.identity.name,
                        node_id: node_id@,
                        protocol: "UDP"@,
                        text: json_text(
                            seq![
                                ("type"@, ItemView::Text("p2p_ping"@)),
                                ("from"@, ItemView::Text(ctx@.identity.node_id)),
                            ],
                        ),
                    },
                )
            } else {
                turned_to_ws(node_id@, peer, sid@, l@.at, effects(r.1@), r.2@)
            }
        },
{
    law_ipv4_round_trip(mine);
    law_ipv4_round_trip(theirs);
}

/// A ladder that draws its own id begins as any other: not at all to a peer that is live or
/// not known, and to any other with its ping, its WebSocket or a signal.
pub proof fn law_start_draws_an_id(
    ctx: NetCtx,
    node_id: &str,
    ticket: u64,
    r: (Option<Ladder>, Vec<Effect>, Action),
)
    requires
        call_ensures(Ladder::start, (&ctx, node_id, ticket), r),
    ensures
        r.0 is None <==> ctx@.p2p_conns.contains_key(node_id@) || !ctx@.peers.contains_key(node_id@),
        r.0 is None <==> r.2@ is Stop,
        ctx@.p2p_conns.contains_key(node_id@) ==> effects(r.1@) == told(
            node_id@,
            "connected"@,
            None,
        ),
        !ctx@.p2p_conns.contains_key(node_id@) && !ctx@.peers.contains_key(node_id@) ==> effects(
            r.1@,
        ) == told(node_id@, "failed"@, Some("peer not found"@)),
        r.0 matches Some(l) ==> {
            let peer = ctx@.peers[node_id@];
            &&& l@.node_id == node_id@
            &&& l@.peer == peer
            &&& l@.ticket == ticket
            &&& peer.source == Source::Lan ==> l@.at is PingSend && effects(r.1@) == told(
                node_id@,
                "udp_ping"@,
                None,
            )
            &&& l@.at is PingSend || exists|sid: Seq<char>| #[trigger]
                turned_to_ws(node_id@, peer, sid, l@.at, effects(r.1@), r.2@)
        },
{
    let sid = choose|sid: Seq<char>| #[trigger]
        crate::ids::is_uuid_v4(sid) && ({
            let s = crate::engine::ladder::ladder_start(ctx@, node_id@, sid);
            &&& effects(r.1@) == s.effects
            &&& r.2@ == s.action
            &&& match r.0 {
                Some(l) => l@ == (crate::engine::ladder::LadderView {
                    node_id: node_id@,
                    peer: ctx@.peers[node_id@],
                    ticket,
                    at: s.at,
                }) && !(s.at is Finished),
                None => s.at is Finished,
            }
        });
    if let Some(l) = r.0 {
        let peer = ctx@.peers[node_id@];
        if !(l@.at is PingSend) {
            assert(turned_to_ws(node_id@, peer, sid, l@.at, effects(r.1@), r.2@));
        }
    }
}

/// A peer is taken to be on our LAN where it was discovered there or where its address and
/// ours differ in the last octet at most; an address that is none is in no /24.
pub proof fn law_same_lan(ctx: NetCtx, peer: Peer, mine: Ipv4, theirs: Ipv4, r: bool)
    requires
        call_ensures(same_lan, (&ctx, &peer), r),
    ensures
        peer@.source == Source::Lan ==> r,
        ctx@.identity.ip == dotted(mine) && peer@.ip == dotted(theirs) && peer@.source
            != Source::Lan ==> (r <==> mine == (Ipv4 { d: mine.d, ..theirs })),
        r && peer@.source != Source::Lan ==> exists|x: Ipv4| #[trigger] dotted(x) == peer@.ip,
{
    law_ipv4_round_trip(mine);
    law_ipv4_round_trip(theirs);
}

/// A ladder may be begun to exactly the known peers.
pub proof fn law_connect_knows_the_peer(e: Engine, node_id: &str, r: Result<(), String>)
    requires
        call_ensures(Engine::connect, (&e, node_id), r),
    ensures
        r is Ok <==> e@.net.peers.contains_key(node_id@),
        r matches Err(text) ==> text@ == "peer not found"@,
{
}

} // verus!
