//! Signals between two devices, and what a device tells the server of its reachability.

use vstd::prelude::*;

use crate::engine::ladder::{Action, Event, Ladder, LadderEventView};
use crate::engine::signals::{
    firewall_verdict, on_signal, punch_answer, sdp_answer, FirewallReport, FirewallStatus,
    FirewallStep, SignalAction, SignalActionView,
};
use crate::engine::{Engine, NetCtx, NetView};
use crate::events::{Effect, EffectView, EventView};
use crate::json::{json_fields, json_text, ItemView};
use crate::registry::{base_spec, HttpRequest, Method, ProbeResult};
use crate::signal::{candidates_view, Candidate, Signal, SignalView};

verus! {

/// A sibling that asks for our WebSocket is told where it is; one that says where its own
/// is, is dialed there; an offer to punch is taken up toward the very candidates that it
/// carried, and a WebRTC offer with the very SDP. None of this changes the state.
pub proof fn law_requests_are_taken_up(ctx: &mut NetCtx, from: &str, sig: Signal, r: SignalAction)
    requires
        call_ensures(on_signal, (ctx, from, sig), r),
        sig@ is StartWs || sig@ is WsReady || sig@ is PunchOffer || sig@ is SdpOffer,
    ensures
        final(ctx)@ == old(ctx)@,
        sig@ matches SignalView::StartWs { sid } ==> r@ == (SignalActionView::OpenWs {
            reply: SignalView::WsReady {
                sid,
                ip: old(ctx)@.identity.ip,
                ws_port: old(ctx)@.identity.ws_port,
            },
        }),
        sig@ matches SignalView::WsReady { sid, ip, ws_port } ==> r@ == (
        SignalActionView::DialWs { ip, ws_port }),
        sig@ matches SignalView::PunchOffer { sid, candidates, start_in_ms } ==> r@ == (
        SignalActionView::Punch { sid, candidates }),
        sig@ matches SignalView::SdpOffer { sid, sdp } ==> r@ == (SignalActionView::AcceptSdp {
            sid,
            sdp,
        }),
{
}

/// An answer goes, as it came, to whoever waits under its id, who then waits no more; one
/// that nobody waits for does nothing.
pub proof fn law_answers_are_delivered(ctx: &mut NetCtx, from: &str, sig: Signal, r: SignalAction)
    requires
        call_ensures(on_signal, (ctx, from, sig), r),
    ensures
        sig@ matches SignalView::PunchAnswer { sid, candidates, start_in_ms } ==> {
            &&& final(ctx)@ == (NetView {
                punch_waiters: old(ctx)@.punch_waiters.remove(sid),
                ..old(ctx)@
            })
            &&& if old(ctx)@.punch_waiters.contains_key(sid) {
                r@ == (SignalActionView::DeliverCandidates {
                    ticket: old(ctx)@.punch_waiters[sid],
                    candidates,
                })
            } else {
                r@ is Nothing
            }
        },
        sig@ matches SignalView::SdpAnswer { sid, sdp } ==> {
            &&& final(ctx)@ == (NetView {
                rtc_waiters: old(ctx)@.rtc_waiters.remove(sid),
                ..old(ctx)@
            })
            &&& if old(ctx)@.rtc_waiters.contains_key(sid) {
                r@ == (SignalActionView::DeliverSdp { ticket: old(ctx)@.rtc_waiters[sid], sdp })
            } else {
                r@ is Nothing
            }
        },
{
    if let SignalView::PunchAnswer { sid, candidates, start_in_ms } = sig@ {
        if !old(ctx)@.punch_waiters.contains_key(sid) {
            assert(old(ctx)@.punch_waiters.remove(sid) =~= old(ctx)@.punch_waiters);
        }
    }
    if let SignalView::SdpAnswer { sid, sdp } = sig@ {
        if !old(ctx)@.rtc_waiters.contains_key(sid) {
            assert(old(ctx)@.rtc_waiters.remove(sid) =~= old(ctx)@.rtc_waiters);
        }
    }
}

/// A sibling that says goodbye is live no more, and the UI is told if it was. Every other
/// live link stays. What no rung of the ladder asks for does nothing.
pub proof fn law_goodbye_and_the_rest(ctx: &mut NetCtx, from: &str, sig: Signal, r: SignalAction)
    requires
        call_ensures(on_signal, (ctx, from, sig), r),
    ensures
        sig@ is Bye ==> {
            &&& final(ctx)@ == (NetView {
                p2p_conns: old(ctx)@.p2p_conns.remove(from@),
                ..old(ctx)@
            })
            &&& r@ == SignalActionView::Perform(
                if old(ctx)@.p2p_conns.contains_key(from@) {
                    seq![EffectView::Emit(EventView::PeerDisconnected { node_id: from@ })]
                } else {
                    Seq::empty()
                },
            )
        },
        sig@ is WsUnavailable || sig@ is PunchReady || sig@ is PunchFailed || sig@ is RelayOffer
            || sig@ is RelayAnswer ==> final(ctx)@ == old(ctx)@ && r@ is Nothing,
{
}

/// A hole punch is negotiated in full: the candidates that the one device gathered are the
/// ones that the other is asked to punch toward, and those that the other answers with come
/// to the ladder that made the offer, which punches toward them.
pub proof fn law_punch_is_negotiated(
    l: &mut Ladder,
    here: &mut NetCtx,
    gathered: Event,
    sid: String,
    offered: (Vec<Effect>, Action),
    offer: Signal,
    there: &mut NetCtx,
    from_here: &str,
    taken: SignalAction,
    theirs: Vec<Candidate>,
    answer_sid: String,
    answer: Signal,
    later: &mut NetCtx,
    from_there: &str,
    delivered: SignalAction,
)
    requires
        old(l)@.at is PunchGather,
        gathered@ matches LadderEventView::Candidates(Some(_)),
        call_ensures(Ladder::step_with, (l, here, gathered, sid), offered),
        offered.1 == Action::Signal(offer),
        call_ensures(on_signal, (there, from_here, offer), taken),
        taken@ matches SignalActionView::Punch { sid: s, candidates: _ } ==> s == answer_sid@,
        call_ensures(punch_answer, (answer_sid, theirs), answer),
        old(later)@ == final(here)@,
        call_ensures(on_signal, (later, from_there, answer), delivered),
    ensures
        gathered@ matches LadderEventView::Candidates(Some(mine)) && taken@ == (
        SignalActionView::Punch { sid: sid@, candidates: mine }),
        delivered@ == (SignalActionView::DeliverCandidates {
            ticket: old(l)@.ticket,
            candidates: candidates_view(theirs@),
        }),
{
}

/// A WebRTC connection is negotiated in full: the SDP that the one device created is the one
/// that the other accepts, and the one that the other answers with comes to the ladder that
/// made the offer.
pub proof fn law_webrtc_is_negotiated(
    l: &mut Ladder,
    here: &mut NetCtx,
    created: Event,
    sid: String,
    offered: (Vec<Effect>, Action),
    offer: Signal,
    there: &mut NetCtx,
    from_here: &str,
    taken: SignalAction,
    theirs: String,
    answer_sid: String,
    answer: Signal,
    later: &mut NetCtx,
    from_there: &str,
    delivered: SignalAction,
)
    requires
        old(l)@.at is RtcCreate,
        created@ matches LadderEventView::Sdp(Some(_)),
        call_ensures(Ladder::step_with, (l, here, created, sid), offered),
        offered.1 == Action::Signal(offer),
        call_ensures(on_signal, (there, from_here, offer), taken),
        taken@ matches SignalActionView::AcceptSdp { sid: s, sdp: _ } ==> s == answer_sid@,
        call_ensures(sdp_answer, (answer_sid, theirs), answer),
        old(later)@ == final(here)@,
        call_ensures(on_signal, (later, from_there, answer), delivered),
    ensures
        created@ matches LadderEventView::Sdp(Some(mine)) && taken@ == (
        SignalActionView::AcceptSdp { sid: sid@, sdp: mine }),
        delivered@ == (SignalActionView::DeliverSdp {
            ticket: old(l)@.ticket,
            sdp: theirs@,
        }),
{
}

/// A WebSocket that is asked for by signal is dialed where the asked device listens.
pub proof fn law_ws_is_negotiated(
    there: &mut NetCtx,
    from_here: &str,
    ask: Signal,
    opened: SignalAction,
    reply: Signal,
    here: &mut NetCtx,
    from_there: &str,
    dialed: SignalAction,
)
    requires
        ask@ is StartWs,
        call_ensures(on_signal, (there, from_here, ask), opened),
        opened == (SignalAction::OpenWs { reply }),
        call_ensures(on_signal, (here, from_there, reply), dialed),
    ensures
        dialed@ == (SignalActionView::DialWs {
            ip: old(there)@.identity.ip,
            ws_port: old(there)@.identity.ws_port,
        }),
{
    assert(opened@ == (SignalActionView::OpenWs { reply: reply@ }));
}

/// A request that carries a JSON object to the server, for a user with a token.
pub open spec fn posts(
    q: HttpRequest,
    url: Seq<char>,
    path: Seq<char>,
    token: Seq<char>,
    fields: Seq<(Seq<char>, ItemView)>,
) -> bool {
    &&& q@.method == Method::Post
    &&& q@.url == base_spec(url) + path
    &&& q@.authorization == Some("Bearer "@ + token)
    &&& q@.body == Some(json_text(fields))
    &&& q@.timeout_secs == 10
}

/// A device is blocked where the server could dial neither of its listeners, and the server
/// is told just that.
pub proof fn law_firewall_verdict(
    url: &str,
    token: &str,
    node_id: &str,
    probe: ProbeResult,
    r: (FirewallStatus, HttpRequest),
)
    requires
        call_ensures(firewall_verdict, (url, token, node_id, probe), r),
    ensures
        r.0.outbound_ok,
        r.0.inbound_blocked <==> !probe.tcp_reachable && !probe.ws_reachable,
        posts(
            r.1,
            url@,
            "/devices/state"@,
            token@,
            seq![
                ("node_id"@, ItemView::Text(node_id@)),
                ("ws_open"@, ItemView::Null),
                ("inbound_blocked"@, ItemView::Flag(r.0.inbound_blocked)),
                ("reflexive_ip"@, ItemView::Null),
                ("reflexive_udp_port"@, ItemView::Null),
            ],
        ),
{
}

/// A firewall check asks first whether the server answers at all. A device that cannot reach
/// it counts as blocked; for any other the server is asked to dial back its TCP and its
/// WebSocket port.
pub proof fn law_firewall_check(
    e: Engine,
    url: &str,
    outbound_ok: bool,
    first: Result<(String, HttpRequest), String>,
    second: Result<FirewallStep, String>,
)
    requires
        call_ensures(Engine::firewall_check, (&e,), first),
        call_ensures(Engine::firewall_probe, (&e, url, outbound_ok), second),
    ensures
        first is Ok <==> e@.server_url is Some,
        first matches Err(t) ==> t@ == "not logged in"@,
        first matches Ok(t) ==> {
            &&& Some(t.0@) == e@.server_url
            &&& t.1@.method == Method::Get
            &&& t.1@.url == base_spec(t.0@) + "/health"@
            &&& t.1@.body is None
            &&& t.1@.authorization is None
            &&& t.1@.timeout_secs == 5
        },
        !outbound_ok ==> (second matches Ok(FirewallStep::Done(s)) && !s.outbound_ok
            && s.inbound_blocked),
        outbound_ok && e@.token is None ==> (second matches Err(t) && t@ == "not logged in"@),
        outbound_ok ==> (e@.token matches Some(token) ==> {
            &&& second matches Ok(FirewallStep::Probe { token: t, request })
            &&& t@ == token
            &&& posts(
                request,
                url@,
                "/devices/probe"@,
                token,
                seq![
                    ("node_id"@, ItemView::Text(e@.net.identity.node_id)),
                    ("check"@, ItemView::Texts(seq!["tcp"@, "ws"@])),
                ],
            )
        }),
{
}

/// The check in the background makes the same two requests, where there is a session.
pub proof fn law_firewall_report(e: Engine, r: Option<FirewallReport>)
    requires
        call_ensures(Engine::report_firewall, (&e,), r),
    ensures
        r is Some <==> e@.server_url is Some && e@.token is Some,
        r matches Some(f) ==> {
            &&& Some(f.url@) == e@.server_url
            &&& Some(f.token@) == e@.token
            &&& f.health@.method == Method::Get
            &&& f.health@.url == base_spec(f.url@) + "/health"@
            &&& f.health@.body is None
            &&& f.health@.timeout_secs == 5
            &&& posts(
                f.probe,
                f.url@,
                "/devices/probe"@,
                f.token@,
                seq![
                    ("node_id"@, ItemView::Text(e@.net.identity.node_id)),
                    ("check"@, ItemView::Texts(seq!["tcp"@, "ws"@])),
                ],
            )
        },
{
}

/// The registry is told whether our WebSocket is open, and nothing else.
pub proof fn law_ws_open_is_told(e: Engine, open: bool, r: Result<HttpRequest, String>)
    requires
        call_ensures(Engine::update_ws_open, (&e, open), r),
    ensures
        r is Ok <==> e@.server_url is Some && e@.token is Some,
        r matches Err(t) ==> t@ == "not logged in"@,
        r matches Ok(q) ==> posts(
            q,
            e@.server_url->0,
            "/devices/state"@,
            e@.token->0,
            seq![
                ("node_id"@, ItemView::Text(e@.net.identity.node_id)),
                ("ws_open"@, ItemView::Flag(open)),
                ("inbound_blocked"@, ItemView::Null),
                ("reflexive_ip"@, ItemView::Null),
                ("reflexive_udp_port"@, ItemView::Null),
            ],
        ),
{
}

/// A signal goes to the server as it is, from this device to the one it is for.
pub proof fn law_signal_is_relayed(
    e: Engine,
    to: &str,
    signal: &str,
    r: Result<HttpRequest, String>,
)
    requires
        call_ensures(Engine::send_signal, (&e, to, signal), r),
    ensures
        e@.server_url is None || e@.token is None ==> (r matches Err(t) && t@
            == "not logged in"@),
        e@.server_url is Some && e@.token is Some ==> (r is Ok <==> json_fields(signal@) is Some),
        e@.server_url is Some && e@.token is Some && json_fields(signal@) is None ==> (
        r matches Err(t) && t@ == "malformed signal"@),
        r matches Ok(q) ==> posts(
            q,
            e@.server_url->0,
            "/signal"@,
            e@.token->0,
            seq![
                ("from"@, ItemView::Text(e@.net.identity.node_id)),
                ("to"@, ItemView::Text(to@)),
                ("type"@, ItemView::Text("signal"@)),
                ("data"@, ItemView::Raw(signal@)),
            ],
        ),
{
}

/// The push self-test names this device and the id under which the answer is to come.
pub proof fn law_selftest_names_us(
    e: Engine,
    sid: &str,
    given: Result<HttpRequest, String>,
    drawn: Result<(String, HttpRequest), String>,
)
    requires
        call_ensures(Engine::fcm_selftest_with, (&e, sid), given),
        call_ensures(Engine::fcm_selftest, (&e,), drawn),
    ensures
        given is Ok <==> e@.server_url is Some && e@.token is Some,
        drawn is Ok <==> e@.server_url is Some && e@.token is Some,
        given matches Err(t) ==> t@ == "not logged in"@,
        drawn matches Err(t) ==> t@ == "not logged in"@,
        given matches Ok(q) ==> posts(
            q,
            e@.server_url->0,
            "/signal/selfping"@,
            e@.token->0,
            seq![
                ("node_id"@, ItemView::Text(e@.net.identity.node_id)),
                ("sid"@, ItemView::Text(sid@)),
            ],
        ),
        drawn matches Ok(t) ==> posts(
            t.1,
            e@.server_url->0,
            "/signal/selfping"@,
            e@.token->0,
            seq![
                ("node_id"@, ItemView::Text(e@.net.identity.node_id)),
                ("sid"@, ItemView::Text(t.0@)),
            ],
        ),
{
}

} // verus!
