//! Signaling and reachability: what a device asks of the server when it sets up
//! connections, and what it does when a sibling's signal comes in.

use vstd::prelude::*;

use super::{Engine, NetCtx, NetView};
use crate::events::{effects, Effect, EffectView};
use crate::ids::{fresh_uuid, is_uuid_v4};
use crate::json::json_fields;
use crate::registry::{
    health_ok, post_spec, probe_fields, probe_inbound, selfping_fields, send_selfping,
    signal_fields, state_fields, update_device_state, HttpRequest, ProbeResult, RequestView,
};
use crate::signal::{candidates_view, Candidate, CandidateView, Signal, SignalView};
use crate::text::texts;
use crate::transport::{drop_live, dropped_live};

verus! {

#[derive(Clone, Copy, Debug, PartialEq, Eq)]
pub struct FirewallStatus {
    pub outbound_ok: bool,
    pub inbound_blocked: bool,
}

/// The next step of a firewall check.
pub enum FirewallStep {
    /// The check is over.
    Done(FirewallStatus),
    /// Send this request; its reply goes to `firewall_verdict`.
    Probe { token: String, request: HttpRequest },
}

/// The ports that the server is asked to dial back to.
pub open spec fn probed_ports() -> Seq<Seq<char>> {
    seq!["tcp"@, "ws"@]
}

fn ports_to_probe() -> (r: Vec<String>)
    ensures
        texts(r@) == probed_ports(),
{
    let mut r: Vec<String> = Vec::new();
    r.push("tcp".to_owned());
    r.push("ws".to_owned());
    assert(texts(r@) =~= probed_ports());
    r
}

/// The request by which the server dials back to a device.
pub open spec fn probe_request(url: Seq<char>, token: Seq<char>, node_id: Seq<char>) -> RequestView {
    post_spec(url, "/devices/probe"@, Some(token), probe_fields(node_id, probed_ports()))
}

/// Whether a device that was probed cannot receive inbound connections: neither its
/// TCP port nor its WebSocket port could be reached.
pub open spec fn is_blocked(probe: ProbeResult) -> bool {
    !(probe.tcp_reachable || probe.ws_reachable)
}

/// What a probe says, and the request that lets siblings see it.
pub fn firewall_verdict(url: &str, token: &str, node_id: &str, probe: ProbeResult) -> (r: (
    FirewallStatus,
    HttpRequest,
))
    ensures
        r.0 == (FirewallStatus { outbound_ok: true, inbound_blocked: is_blocked(probe) }),
        r.1@ == post_spec(
            url@,
            "/devices/state"@,
            Some(token@),
            state_fields(node_id@, None, Some(is_blocked(probe)), None, None),
        ),
{
    let blocked = !(probe.tcp_reachable || probe.ws_reachable);
    let update = update_device_state(url, token, node_id, None, Some(blocked), None, None);
    (FirewallStatus { outbound_ok: true, inbound_blocked: blocked }, update)
}

/// The requests of a firewall check that reports to the server alone: if the first
/// succeeds, the second; what that brings goes to `firewall_verdict`.
pub struct FirewallReport {
    pub url: String,
    pub token: String,
    pub health: HttpRequest,
    pub probe: HttpRequest,
}

/// The request that asks whether the server can be reached.
pub open spec fn health_request(url: Seq<char>) -> RequestView {
    RequestView {
        method: crate::registry::Method::Get,
        url: crate::registry::base_spec(url) + "/health"@,
        authorization: None,
        body: None,
        timeout_secs: 5,
    }
}

/// What an inbound signal asks the host to do.
pub enum SignalAction {
    /// Nothing.
    Nothing,
    /// Tell the server that our WS is open, and send this reply to the sender.
    OpenWs { reply: Signal },
    /// Dial this WebSocket.
    DialWs { ip: String, ws_port: u16 },
    /// Gather candidates, answer with them (`punch_answer`), and punch toward these.
    Punch { sid: String, candidates: Vec<Candidate> },
    /// Hand these candidates to the ladder with this ticket.
    DeliverCandidates { ticket: u64, candidates: Vec<Candidate> },
    /// Accept this offer, and answer it (`sdp_answer`).
    AcceptSdp { sid: String, sdp: String },
    /// Hand this answer to the ladder with this ticket.
    DeliverSdp { ticket: u64, sdp: String },
    /// Perform these effects.
    Perform(Vec<Effect>),
}

#[verifier::ext_equal]
pub enum SignalActionView {
    Nothing,
    OpenWs { reply: SignalView },
    DialWs { ip: Seq<char>, ws_port: u16 },
    Punch { sid: Seq<char>, candidates: Seq<CandidateView> },
    DeliverCandidates { ticket: u64, candidates: Seq<CandidateView> },
    AcceptSdp { sid: Seq<char>, sdp: Seq<char> },
    DeliverSdp { ticket: u64, sdp: Seq<char> },
    Perform(Seq<EffectView>),
}

impl View for SignalAction {
    type V = SignalActionView;

    open spec fn view(&self) -> SignalActionView {
        match self {
            SignalAction::Nothing => SignalActionView::Nothing,
            SignalAction::OpenWs { reply } => SignalActionView::OpenWs { reply: reply@ },
            SignalAction::DialWs { ip, ws_port } => SignalActionView::DialWs {
                ip: ip@,
                ws_port: *ws_port,
            },
            SignalAction::Punch { sid, candidates } => SignalActionView::Punch {
                sid: sid@,
                candidates: candidates_view(candidates@),
            },
            SignalAction::DeliverCandidates { ticket, candidates } => {
                SignalActionView::DeliverCandidates {
                    ticket: *ticket,
                    candidates: candidates_view(candidates@),
                }
            },
            SignalAction::AcceptSdp { sid, sdp } => SignalActionView::AcceptSdp {
                sid: sid@,
                sdp: sdp@,
            },
            SignalAction::DeliverSdp { ticket, sdp } => SignalActionView::DeliverSdp {
                ticket: *ticket,
                sdp: sdp@,
            },
            SignalAction::Perform(list) => SignalActionView::Perform(effects(list@)),
        }
    }
}

/// The state and the action once a signal has come in from a sibling.
pub open spec fn signaled(net: NetView, from: Seq<char>, sig: SignalView) -> (
    NetView,
    SignalActionView,
) {
    match sig {
        SignalView::StartWs { sid } => (
            net,
            SignalActionView::OpenWs {
                reply: SignalView::WsReady {
                    sid,
                    ip: net.identity.ip,
                    ws_port: net.identity.ws_port,
                },
            },
        ),
        SignalView::WsReady { ip, ws_port, .. } => (net, SignalActionView::DialWs { ip, ws_port }),
        SignalView::PunchOffer { sid, candidates, .. } => (
            net,
            SignalActionView::Punch { sid, candidates },
        ),
        SignalView::PunchAnswer { sid, candidates, .. } => if net.punch_waiters.contains_key(sid) {
            (
                NetView { punch_waiters: net.punch_waiters.remove(sid), ..net },
                SignalActionView::DeliverCandidates { ticket: net.punch_waiters[sid], candidates },
            )
        } else {
            (net, SignalActionView::Nothing)
        },
        SignalView::SdpOffer { sid, sdp } => (net, SignalActionView::AcceptSdp { sid, sdp }),
        SignalView::SdpAnswer { sid, sdp } => if net.rtc_waiters.contains_key(sid) {
            (
                NetView { rtc_waiters: net.rtc_waiters.remove(sid), ..net },
                SignalActionView::DeliverSdp { ticket: net.rtc_waiters[sid], sdp },
            )
        } else {
            (net, SignalActionView::Nothing)
        },
        SignalView::Bye { .. } => (
            dropped_live(net, from).0,
            SignalActionView::Perform(dropped_live(net, from).1),
        ),
        _ => (net, SignalActionView::Nothing),
    }
}

/// An inbound signal: drives the responder side of the connection ladder, and hands
/// answers to the ladder that waits for them.
pub fn on_signal(ctx: &mut NetCtx, from: &str, sig: Signal) -> (r: SignalAction)
    ensures
        final(ctx)@ == signaled(old(ctx)@, from@, sig@).0,
        r@ == signaled(old(ctx)@, from@, sig@).1,
{
    match sig {
        Signal::StartWs { sid } => SignalAction::OpenWs {
            reply: Signal::WsReady {
                sid,
                ip: ctx.identity.ip.clone(),
                ws_port: ctx.identity.ws_port,
            },
        },
        Signal::WsReady { sid, ip, ws_port } => SignalAction::DialWs { ip, ws_port },
        Signal::PunchOffer { sid, candidates, start_in_ms } => SignalAction::Punch {
            sid,
            candidates,
        },
        Signal::PunchAnswer { sid, candidates, start_in_ms } => {
            match ctx.punch_waiters.remove(sid.as_str()) {
                Some(ticket) => SignalAction::DeliverCandidates { ticket, candidates },
                None => {
                    assert(ctx@.punch_waiters =~= old(ctx)@.punch_waiters);
                    SignalAction::Nothing
                },
            }
        },
        Signal::SdpOffer { sid, sdp } => SignalAction::AcceptSdp { sid, sdp },
        Signal::SdpAnswer { sid, sdp } => {
            match ctx.rtc_waiters.remove(sid.as_str()) {
                Some(ticket) => SignalAction::DeliverSdp { ticket, sdp },
                None => {
                    assert(ctx@.rtc_waiters =~= old(ctx)@.rtc_waiters);
                    SignalAction::Nothing
                },
            }
        },
        Signal::Bye { sid } => SignalAction::Perform(drop_live(ctx, from)),
        _ => SignalAction::Nothing,
    }
}

/// The answer to an offer to punch, with our own candidates.
pub fn punch_answer(sid: String, candidates: Vec<Candidate>) -> (r: Signal)
    ensures
        r@ == (SignalView::PunchAnswer {
            sid: sid@,
            candidates: candidates_view(candidates@),
            start_in_ms: 0,
        }),
{
    Signal::PunchAnswer { sid, candidates, start_in_ms: 0 }
}

/// The answer to a WebRTC offer.
pub fn sdp_answer(sid: String, sdp: String) -> (r: Signal)
    ensures
        r@ == (SignalView::SdpAnswer { sid: sid@, sdp: sdp@ }),
{
    Signal::SdpAnswer { sid, sdp }
}

/// An answer reaches the ladder that waits for it, and no second one does.
pub proof fn law_answer_is_delivered_once(
    net: NetView,
    from: Seq<char>,
    sid: Seq<char>,
    candidates: Seq<CandidateView>,
    start_in_ms: u64,
)
    requires
        net.punch_waiters.contains_key(sid),
    ensures
        ({
            let sig = SignalView::PunchAnswer { sid, candidates, start_in_ms };
            let first = signaled(net, from, sig);
            &&& first.1 == (SignalActionView::DeliverCandidates {
                ticket: net.punch_waiters[sid],
                candidates,
            })
            &&& signaled(first.0, from, sig) == (first.0, SignalActionView::Nothing)
        }),
{
}

impl Engine {
    /// Outbound + inbound reachability check, first step: the request that shows
    /// whether the server is reachable. How it went goes to `firewall_probe`.
    pub fn firewall_check(&self) -> (r: Result<(String, HttpRequest), String>)
        ensures
            match self@.server_url {
                Some(url) => r matches Ok(t) && t.0@ == url && t.1@ == health_request(url),
                None => r matches Err(e) && e@ == "not logged in"@,
            },
    {
        match &self.server_url {
            Some(url) => Ok((url.clone(), health_ok(url.as_str()))),
            None => Err("not logged in".to_owned()),
        }
    }

    /// Second step: a device that cannot reach the server counts as blocked; else the
    /// server is asked to dial back.
    pub fn firewall_probe(&self, url: &str, outbound_ok: bool) -> (r: Result<FirewallStep, String>)
        ensures
            !outbound_ok ==> (r matches Ok(step) && step == FirewallStep::Done(
                FirewallStatus { outbound_ok: false, inbound_blocked: true },
            )),
            outbound_ok ==> match self@.token {
                None => r matches Err(e) && e@ == "not logged in"@,
                Some(token) => r matches Ok(step) && (step matches FirewallStep::Probe {
                    token: t,
                    request,
                } && t@ == token && request@ == probe_request(
                    url@,
                    token,
                    self@.net.identity.node_id,
                )),
            },
    {
        if !outbound_ok {
            return Ok(
                FirewallStep::Done(FirewallStatus { outbound_ok: false, inbound_blocked: true }),
            );
        }
        match &self.token {
            None => Err("not logged in".to_owned()),
            Some(token) => Ok(
                FirewallStep::Probe {
                    token: token.clone(),
                    request: probe_inbound(
                        url,
                        token.as_str(),
                        self.net.identity.node_id.as_str(),
                        ports_to_probe(),
                    ),
                },
            ),
        }
    }

    /// The firewall check in the background, once after login, so that other devices
    /// see our reachability; `None` without a session.
    pub fn report_firewall(&self) -> (r: Option<FirewallReport>)
        ensures
            match (self@.server_url, self@.token) {
                (Some(url), Some(token)) => r matches Some(f) && f.url@ == url && f.token@ == token
                    && f.health@ == health_request(url) && f.probe@ == probe_request(
                    url,
                    token,
                    self@.net.identity.node_id,
                ),
                _ => r is None,
            },
    {
        match (&self.server_url, &self.token) {
            (Some(url), Some(token)) => Some(
                FirewallReport {
                    url: url.clone(),
                    token: token.clone(),
                    health: health_ok(url.as_str()),
                    probe: probe_inbound(
                        url.as_str(),
                        token.as_str(),
                        self.net.identity.node_id.as_str(),
                        ports_to_probe(),
                    ),
                },
            ),
            _ => None,
        }
    }

    /// The request that tells the registry whether our WS server is reachable.
    pub fn update_ws_open(&self, open: bool) -> (r: Result<HttpRequest, String>)
        ensures
            match (self@.server_url, self@.token) {
                (Some(url), Some(token)) => r matches Ok(q) && q@ == post_spec(
                    url,
                    "/devices/state"@,
                    Some(token),
                    state_fields(self@.net.identity.node_id, Some(open), None, None, None),
                ),
                _ => r matches Err(e) && e@ == "not logged in"@,
            },
    {
        match (&self.server_url, &self.token) {
            (Some(url), Some(token)) => Ok(
                update_device_state(
                    url.as_str(),
                    token.as_str(),
                    self.net.identity.node_id.as_str(),
                    Some(open),
                    None,
                    None,
                    None,
                ),
            ),
            _ => Err("not logged in".to_owned()),
        }
    }

    /// The request that relays a signal (as JSON text) to a sibling device.
    pub fn send_signal(&self, to: &str, signal: &str) -> (r: Result<HttpRequest, String>)
        ensures
            match (self@.server_url, self@.token) {
                (Some(url), Some(token)) => if json_fields(signal@) is Some {
                    r matches Ok(q) && q@ == post_spec(
                        url,
                        "/signal"@,
                        Some(token),
                        signal_fields(self@.net.identity.node_id, to@, "signal"@, signal@),
                    )
                } else {
                    r matches Err(e) && e@ == "malformed signal"@
                },
                _ => r matches Err(e) && e@ == "not logged in"@,
            },
    {
        match (&self.server_url, &self.token) {
            (Some(url), Some(token)) => match crate::registry::send_signal(
                url.as_str(),
                token.as_str(),
                self.net.identity.node_id.as_str(),
                to,
                "signal",
                signal,
            ) {
                Some(q) => Ok(q),
                None => Err("malformed signal".to_owned()),
            },
            _ => Err("not logged in".to_owned()),
        }
    }

    /// `fcm_selftest` under a given correlation id.
    pub fn fcm_selftest_with(&self, sid: &str) -> (r: Result<HttpRequest, String>)
        ensures
            match (self@.server_url, self@.token) {
                (Some(url), Some(token)) => r matches Ok(q) && q@ == post_spec(
                    url,
                    "/signal/selfping"@,
                    Some(token),
                    selfping_fields(self@.net.identity.node_id, sid@),
                ),
                _ => r matches Err(e) && e@ == "not logged in"@,
            },
    {
        match (&self.server_url, &self.token) {
            (Some(url), Some(token)) => Ok(
                send_selfping(
                    url.as_str(),
                    token.as_str(),
                    self.net.identity.node_id.as_str(),
                    sid,
                ),
            ),
            _ => Err("not logged in".to_owned()),
        }
    }

    /// Round-trip push self-test: the request that has the server push a `ping` to our
    /// own device token, and the fresh correlation id under which the pong comes.
    pub fn fcm_selftest(&self) -> (r: Result<(String, HttpRequest), String>)
        ensures
            match (self@.server_url, self@.token) {
                (Some(url), Some(token)) => r matches Ok(t) && is_uuid_v4(t.0@) && t.1@
                    == post_spec(
                    url,
                    "/signal/selfping"@,
                    Some(token),
                    selfping_fields(self@.net.identity.node_id, t.0@),
                ),
                _ => r matches Err(e) && e@ == "not logged in"@,
            },
    {
        if self.server_url.is_none() || self.token.is_none() {
            return Err("not logged in".to_owned());
        }
        let sid = fresh_uuid();
        match self.fcm_selftest_with(sid.as_str()) {
            Ok(q) => Ok((sid, q)),
            Err(e) => Err(e),
        }
    }
}

} // verus!
