//! The connection ladder: how a device tries to reach a peer. Each rung reports its
//! progress and bails to the next on failure or timeout. Rungs are ordered
//! cheapest-first: a UDP ping on the same LAN, a direct WebSocket, a WebSocket that
//! the peer opens on request, a UDP hole punch, WebRTC.
//!
//! The host performs one action at a time and comes back with what became of it.

use vstd::prelude::*;

use super::{Engine, NetCtx, NetView};
use crate::events::{
    effects, no_effects, one_effect, CoreEvent, Effect, EffectView, EventView, Outgoing,
    OutgoingView,
};
use crate::ids::{fresh_uuid, is_uuid_v4};
use crate::messages::{bare_message, bare_text};
use crate::model::{Peer, PeerView, Source};
use crate::net::{ipv4_of, Ipv4};
use crate::signal::{candidates_view, Candidate, CandidateView, Signal, SignalView};
use crate::text::opt_text;

verus! {

/// How often a ladder that waits for a link looks for it, in milliseconds.
pub const POLL_MS: u64 = 100;

/// How many times a wait of `ms` milliseconds sleeps before it gives up.
pub fn poll_steps(ms: u64) -> (r: u64)
    ensures
        r == ms / POLL_MS,
{
    ms / POLL_MS
}

/// Whether two addresses share their first three octets.
pub open spec fn same_subnet(a: Ipv4, b: Ipv4) -> bool {
    a.a == b.a && a.b == b.b && a.c == b.c
}

/// Same-LAN heuristic: a LAN-discovered peer, or one whose address shares a /24 with
/// ours.
pub open spec fn same_lan_spec(net: NetView, peer: PeerView) -> bool {
    peer.source == Source::Lan || match (ipv4_of(net.identity.ip), ipv4_of(peer.ip)) {
        (Some(a), Some(b)) => same_subnet(a, b),
        _ => false,
    }
}

/// Same-LAN heuristic: a LAN-discovered peer, or one whose address shares a /24 with
/// ours.
pub fn same_lan(ctx: &NetCtx, peer: &Peer) -> (r: bool)
    ensures
        r == same_lan_spec(ctx@, peer@),
{
    if peer.source == Source::Lan {
        return true;
    }
    match (Ipv4::parse(ctx.identity.ip.as_str()), Ipv4::parse(peer.ip.as_str())) {
        (Some(a), Some(b)) => a.a == b.a && a.b == b.b && a.c == b.c,
        _ => false,
    }
}

/// Whether a peer has a live link.
pub fn is_live(ctx: &NetCtx, node_id: &str) -> (r: bool)
    ensures
        r == ctx@.p2p_conns.contains_key(node_id@),
{
    ctx.p2p_conns.contains_key(node_id)
}

/// Where a ladder is: what it has asked the host for last.
pub enum Stage {
    PingSend,
    PingWait,
    WsDial,
    WsWait,
    SignalSend,
    SignalWait,
    PunchGather,
    PunchOffer { sid: String },
    PunchAnswer { sid: String },
    PunchWait,
    RtcCreate,
    RtcOffer { sid: String },
    RtcAnswer { sid: String },
    RtcApply,
    RtcWait,
    Finished,
}

#[verifier::ext_equal]
pub enum StageView {
    PingSend,
    PingWait,
    WsDial,
    WsWait,
    SignalSend,
    SignalWait,
    PunchGather,
    PunchOffer { sid: Seq<char> },
    PunchAnswer { sid: Seq<char> },
    PunchWait,
    RtcCreate,
    RtcOffer { sid: Seq<char> },
    RtcAnswer { sid: Seq<char> },
    RtcApply,
    RtcWait,
    Finished,
}

impl View for Stage {
    type V = StageView;

    open spec fn view(&self) -> StageView {
        match self {
            Stage::PingSend => StageView::PingSend,
            Stage::PingWait => StageView::PingWait,
            Stage::WsDial => StageView::WsDial,
            Stage::WsWait => StageView::WsWait,
            Stage::SignalSend => StageView::SignalSend,
            Stage::SignalWait => StageView::SignalWait,
            Stage::PunchGather => StageView::PunchGather,
            Stage::PunchOffer { sid } => StageView::PunchOffer { sid: sid@ },
            Stage::PunchAnswer { sid } => StageView::PunchAnswer { sid: sid@ },
            Stage::PunchWait => StageView::PunchWait,
            Stage::RtcCreate => StageView::RtcCreate,
            Stage::RtcOffer { sid } => StageView::RtcOffer { sid: sid@ },
            Stage::RtcAnswer { sid } => StageView::RtcAnswer { sid: sid@ },
            Stage::RtcApply => StageView::RtcApply,
            Stage::RtcWait => StageView::RtcWait,
            Stage::Finished => StageView::Finished,
        }
    }
}

/// What a ladder asks the host for.
pub enum Action {
    /// Send this message; comes back as `Done`.
    Send(Outgoing),
    /// Dial the peer's WebSocket; comes back as `Done`.
    DialWs { ip: String, ws_port: u16 },
    /// Relay this signal to the peer; comes back as `Done`.
    Signal(Signal),
    /// Gather candidates on a fresh socket; comes back as `Candidates`.
    Gather,
    /// Wait this many seconds for the peer's candidates; comes back as `Candidates`.
    AwaitCandidates { secs: u64 },
    /// Punch toward these, and wait up to so many milliseconds for the peer to be
    /// live; comes back as `Live`.
    Punch { candidates: Vec<Candidate>, ms: u64 },
    /// Create a WebRTC offer; comes back as `Sdp`.
    CreateOffer,
    /// Wait this many seconds for the peer's answer; comes back as `Sdp`.
    AwaitSdp { secs: u64 },
    /// Apply this answer and start the connection; comes back as `Done`.
    ApplyAnswer { sdp: String },
    /// Wait up to so many milliseconds for the peer to be live; comes back as `Live`.
    WaitLive { ms: u64 },
    /// The ladder is over.
    Stop,
}

#[verifier::ext_equal]
pub enum ActionView {
    Send(OutgoingView),
    DialWs { ip: Seq<char>, ws_port: u16 },
    Signal(SignalView),
    Gather,
    AwaitCandidates { secs: u64 },
    Punch { candidates: Seq<CandidateView>, ms: u64 },
    CreateOffer,
    AwaitSdp { secs: u64 },
    ApplyAnswer { sdp: Seq<char> },
    WaitLive { ms: u64 },
    Stop,
}

impl View for Action {
    type V = ActionView;

    open spec fn view(&self) -> ActionView {
        match self {
            Action::Send(o) => ActionView::Send(o@),
            Action::DialWs { ip, ws_port } => ActionView::DialWs { ip: ip@, ws_port: *ws_port },
            Action::Signal(s) => ActionView::Signal(s@),
            Action::Gather => ActionView::Gather,
            Action::AwaitCandidates { secs } => ActionView::AwaitCandidates { secs: *secs },
            Action::Punch { candidates, ms } => ActionView::Punch {
                candidates: candidates_view(candidates@),
                ms: *ms,
            },
            Action::CreateOffer => ActionView::CreateOffer,
            Action::AwaitSdp { secs } => ActionView::AwaitSdp { secs: *secs },
            Action::ApplyAnswer { sdp } => ActionView::ApplyAnswer { sdp: sdp@ },
            Action::WaitLive { ms } => ActionView::WaitLive { ms: *ms },
            Action::Stop => ActionView::Stop,
        }
    }
}

/// What became of an action.
pub enum Event {
    /// It worked, or it did not.
    Done(bool),
    /// The peer is live, or did not become so in time.
    Live(bool),
    /// These candidates came, or none did.
    Candidates(Option<Vec<Candidate>>),
    /// This SDP came, or none did.
    Sdp(Option<String>),
}

#[verifier::ext_equal]
pub enum LadderEventView {
    Done(bool),
    Live(bool),
    Candidates(Option<Seq<CandidateView>>),
    Sdp(Option<Seq<char>>),
}

impl View for Event {
    type V = LadderEventView;

    open spec fn view(&self) -> LadderEventView {
        match self {
            Event::Done(b) => LadderEventView::Done(*b),
            Event::Live(b) => LadderEventView::Live(*b),
            Event::Candidates(c) => LadderEventView::Candidates(
                match c {
                    Some(v) => Some(candidates_view(v@)),
                    None => None,
                },
            ),
            Event::Sdp(s) => LadderEventView::Sdp(opt_text(*s)),
        }
    }
}

/// A ladder that is being climbed: to which peer (as it was known at the start), under
/// which ticket answers are handed to it, and how far it has come.
pub struct Ladder {
    pub node_id: String,
    pub peer: Peer,
    pub ticket: u64,
    pub at: Stage,
}

#[verifier::ext_equal]
pub struct LadderView {
    pub node_id: Seq<char>,
    pub peer: PeerView,
    pub ticket: u64,
    pub at: StageView,
}

impl View for Ladder {
    type V = LadderView;

    open spec fn view(&self) -> LadderView {
        LadderView {
            node_id: self.node_id@,
            peer: self.peer@,
            ticket: self.ticket,
            at: self.at@,
        }
    }
}

/// A step of a ladder: the state, where the ladder is, the effects, and the next
/// action.
#[verifier::ext_equal]
pub struct Step {
    pub net: NetView,
    pub at: StageView,
    pub effects: Seq<EffectView>,
    pub action: ActionView,
}

pub open spec fn progress_spec(
    node_id: Seq<char>,
    stage: Seq<char>,
    detail: Option<Seq<char>>,
) -> EffectView {
    EffectView::Emit(EventView::ConnectProgress { node_id, stage, detail })
}

/// A step that goes on within a rung.
pub open spec fn go_on(net: NetView, at: StageView, action: ActionView) -> Step {
    Step { net, at, effects: Seq::empty(), action }
}

/// The last rung failed too.
pub open spec fn give_up(net: NetView, node_id: Seq<char>) -> Step {
    Step {
        net,
        at: StageView::Finished,
        effects: seq![progress_spec(node_id, "failed"@, Some("no reachable path"@))],
        action: ActionView::Stop,
    }
}

/// WebRTC data channel: gather candidates into one SDP offer, send it, and on the
/// single answer connect peer-to-peer.
pub open spec fn try_webrtc(net: NetView, node_id: Seq<char>) -> Step {
    Step {
        net,
        at: StageView::RtcCreate,
        effects: seq![progress_spec(node_id, "webrtc"@, None)],
        action: ActionView::CreateOffer,
    }
}

/// UDP hole punch: gather our candidates up front, offer them in one signal, and punch
/// toward the peer's answered candidates.
pub open spec fn try_punch(net: NetView, node_id: Seq<char>) -> Step {
    Step {
        net,
        at: StageView::PunchGather,
        effects: seq![progress_spec(node_id, "punching"@, None)],
        action: ActionView::Gather,
    }
}

/// Signal-coordinated WebSocket: ask the peer to open its WS and reply where it is.
pub open spec fn try_signal(net: NetView, node_id: Seq<char>, sid: Seq<char>) -> Step {
    Step {
        net,
        at: StageView::SignalSend,
        effects: seq![progress_spec(node_id, "via_signal"@, None)],
        action: ActionView::Signal(SignalView::StartWs { sid }),
    }
}

/// Whether a peer advertises a reachable WebSocket server.
pub open spec fn ws_advertised(peer: PeerView) -> bool {
    peer.ws_port != 0 && peer.ws_open && !peer.inbound_blocked
}

/// Direct WebSocket, if the peer advertises a reachable server; else the next rung.
pub open spec fn try_ws(net: NetView, node_id: Seq<char>, peer: PeerView, sid: Seq<char>) -> Step {
    if ws_advertised(peer) {
        Step {
            net,
            at: StageView::WsDial,
            effects: seq![progress_spec(node_id, "direct_ws"@, None)],
            action: ActionView::DialWs { ip: peer.ip, ws_port: peer.ws_port },
        }
    } else {
        try_signal(net, node_id, sid)
    }
}

/// Same-LAN UDP ping/pong (no push, no server), if the peer looks to be on our LAN;
/// else the next rung.
pub open spec fn try_ping(net: NetView, node_id: Seq<char>, peer: PeerView, sid: Seq<char>) -> Step {
    if same_lan_spec(net, peer) {
        Step {
            net,
            at: StageView::PingSend,
            effects: seq![progress_spec(node_id, "udp_ping"@, None)],
            action: ActionView::Send(
                OutgoingView {
                    from: net.identity.name,
                    node_id,
                    protocol: "UDP"@,
                    text: bare_text("p2p_ping"@, net.identity.node_id),
                },
            ),
        }
    } else {
        try_ws(net, node_id, peer, sid)
    }
}

pub open spec fn is_done(ev: LadderEventView) -> bool {
    ev == LadderEventView::Done(true)
}

pub open spec fn is_up(ev: LadderEventView) -> bool {
    ev == LadderEventView::Live(true)
}

pub open spec fn came(ev: LadderEventView) -> Option<Seq<CandidateView>> {
    match ev {
        LadderEventView::Candidates(c) => c,
        _ => None,
    }
}

pub open spec fn came_sdp(ev: LadderEventView) -> Option<Seq<char>> {
    match ev {
        LadderEventView::Sdp(s) => s,
        _ => None,
    }
}

/// The state once nobody waits for the answer to an offer to punch any more.
pub open spec fn punch_over(net: NetView, sid: Seq<char>) -> NetView {
    NetView { punch_waiters: net.punch_waiters.remove(sid), ..net }
}

/// The state once nobody waits for the answer to a WebRTC offer any more.
pub open spec fn rtc_over(net: NetView, sid: Seq<char>) -> NetView {
    NetView { rtc_waiters: net.rtc_waiters.remove(sid), ..net }
}

/// What a ladder does when an action comes back; `sid` is a fresh id for a negotiation
/// that it may begin.
pub open spec fn ladder_step(net: NetView, l: LadderView, ev: LadderEventView, sid: Seq<char>) -> Step {
    let id = l.node_id;
    match l.at {
        StageView::PingSend => if is_done(ev) {
            go_on(net, StageView::PingWait, ActionView::WaitLive { ms: 2000 })
        } else {
            try_ws(net, id, l.peer, sid)
        },
        StageView::PingWait => if is_up(ev) {
            Step {
                net,
                at: StageView::Finished,
                effects: seq![progress_spec(id, "connected"@, Some("udp"@))],
                action: ActionView::Stop,
            }
        } else {
            try_ws(net, id, l.peer, sid)
        },
        StageView::WsDial => if is_done(ev) {
            go_on(net, StageView::WsWait, ActionView::WaitLive { ms: 3000 })
        } else {
            try_signal(net, id, sid)
        },
        StageView::WsWait => if is_up(ev) {
            go_on(net, StageView::Finished, ActionView::Stop)
        } else {
            try_signal(net, id, sid)
        },
        StageView::SignalSend => if is_done(ev) {
            go_on(net, StageView::SignalWait, ActionView::WaitLive { ms: 8000 })
        } else {
            try_punch(net, id)
        },
        StageView::SignalWait => if is_up(ev) {
            go_on(net, StageView::Finished, ActionView::Stop)
        } else {
            try_punch(net, id)
        },
        StageView::PunchGather => match came(ev) {
            Some(candidates) => go_on(
                NetView { punch_waiters: net.punch_waiters.insert(sid, l.ticket), ..net },
                StageView::PunchOffer { sid },
                ActionView::Signal(SignalView::PunchOffer { sid, candidates, start_in_ms: 0 }),
            ),
            None => try_webrtc(net, id),
        },
        StageView::PunchOffer { sid: mine } => if is_done(ev) {
            go_on(
                net,
                StageView::PunchAnswer { sid: mine },
                ActionView::AwaitCandidates { secs: 8 },
            )
        } else {
            try_webrtc(punch_over(net, mine), id)
        },
        StageView::PunchAnswer { sid: mine } => match came(ev) {
            Some(candidates) => go_on(
                punch_over(net, mine),
                StageView::PunchWait,
                ActionView::Punch { candidates, ms: 9000 },
            ),
            None => try_webrtc(punch_over(net, mine), id),
        },
        StageView::PunchWait => if is_up(ev) {
            go_on(net, StageView::Finished, ActionView::Stop)
        } else {
            try_webrtc(net, id)
        },
        StageView::RtcCreate => match came_sdp(ev) {
            Some(sdp) => go_on(
                NetView { rtc_waiters: net.rtc_waiters.insert(sid, l.ticket), ..net },
                StageView::RtcOffer { sid },
                ActionView::Signal(SignalView::SdpOffer { sid, sdp }),
            ),
            None => give_up(net, id),
        },
        StageView::RtcOffer { sid: mine } => if is_done(ev) {
            go_on(net, StageView::RtcAnswer { sid: mine }, ActionView::AwaitSdp { secs: 10 })
        } else {
            give_up(rtc_over(net, mine), id)
        },
        StageView::RtcAnswer { sid: mine } => match came_sdp(ev) {
            Some(sdp) => go_on(
                rtc_over(net, mine),
                StageView::RtcApply,
                ActionView::ApplyAnswer { sdp },
            ),
            None => give_up(rtc_over(net, mine), id),
        },
        StageView::RtcApply => if is_done(ev) {
            go_on(net, StageView::RtcWait, ActionView::WaitLive { ms: 12000 })
        } else {
            give_up(net, id)
        },
        StageView::RtcWait => if is_up(ev) {
            go_on(net, StageView::Finished, ActionView::Stop)
        } else {
            give_up(net, id)
        },
        StageView::Finished => go_on(net, StageView::Finished, ActionView::Stop),
    }
}

/// What a ladder does at its start: a live peer needs none, an unknown one cannot be
/// reached, any other is tried on the first rung that fits it.
pub open spec fn ladder_start(net: NetView, node_id: Seq<char>, sid: Seq<char>) -> Step {
    if net.p2p_conns.contains_key(node_id) {
        Step {
            net,
            at: StageView::Finished,
            effects: seq![progress_spec(node_id, "connected"@, None)],
            action: ActionView::Stop,
        }
    } else if !net.peers.contains_key(node_id) {
        Step {
            net,
            at: StageView::Finished,
            effects: seq![progress_spec(node_id, "failed"@, Some("peer not found"@))],
            action: ActionView::Stop,
        }
    } else {
        try_ping(net, node_id, net.peers[node_id], sid)
    }
}

fn progress(node_id: &str, stage: &str, detail: Option<String>) -> (r: Vec<Effect>)
    ensures
        effects(r@) == seq![progress_spec(node_id@, stage@, opt_text(detail))],
{
    one_effect(
        Effect::Emit(
            CoreEvent::ConnectProgress {
                node_id: node_id.to_owned(),
                stage: stage.to_owned(),
                detail,
            },
        ),
    )
}

/// A rung that is entered: where the ladder then is, the effects, and the action.
type Entered = (Stage, Vec<Effect>, Action);

/// Whether what was entered is what a step says.
spec fn enters(e: Entered, s: Step) -> bool {
    &&& e.0@ == s.at
    &&& effects(e.1@) == s.effects
    &&& e.2@ == s.action
}

fn stay(at: Stage, action: Action) -> (r: Entered)
    ensures
        forall|net: NetView| enters(r, #[trigger] go_on(net, at@, action@)),
{
    (at, no_effects(), action)
}

fn enter_failed(node_id: &str) -> (r: Entered)
    ensures
        forall|net: NetView| enters(r, #[trigger] give_up(net, node_id@)),
{
    let told = progress(node_id, "failed", Some("no reachable path".to_owned()));
    (Stage::Finished, told, Action::Stop)
}

fn enter_webrtc(node_id: &str) -> (r: Entered)
    ensures
        forall|net: NetView| enters(r, #[trigger] try_webrtc(net, node_id@)),
{
    (Stage::RtcCreate, progress(node_id, "webrtc", None), Action::CreateOffer)
}

fn enter_punch(node_id: &str) -> (r: Entered)
    ensures
        forall|net: NetView| enters(r, #[trigger] try_punch(net, node_id@)),
{
    (Stage::PunchGather, progress(node_id, "punching", None), Action::Gather)
}

fn enter_signal(node_id: &str, sid: String) -> (r: Entered)
    ensures
        forall|net: NetView| enters(r, #[trigger] try_signal(net, node_id@, sid@)),
{
    let told = progress(node_id, "via_signal", None);
    (Stage::SignalSend, told, Action::Signal(Signal::StartWs { sid }))
}

fn enter_ws(node_id: &str, peer: &Peer, sid: String) -> (r: Entered)
    ensures
        forall|net: NetView| enters(r, #[trigger] try_ws(net, node_id@, peer@, sid@)),
{
    if peer.ws_port != 0 && peer.ws_open && !peer.inbound_blocked {
        let told = progress(node_id, "direct_ws", None);
        (Stage::WsDial, told, Action::DialWs { ip: peer.ip.clone(), ws_port: peer.ws_port })
    } else {
        let r = enter_signal(node_id, sid);
        assert forall|net: NetView| enters(r, #[trigger] try_ws(net, node_id@, peer@, sid@)) by {
            assert(enters(r, try_signal(net, node_id@, sid@)));
        }
        r
    }
}

fn enter_ping(ctx: &NetCtx, node_id: &str, peer: &Peer, sid: String) -> (r: Entered)
    ensures
        enters(r, try_ping(ctx@, node_id@, peer@, sid@)),
{
    if same_lan(ctx, peer) {
        let ping = bare_message("p2p_ping", ctx.identity.node_id.as_str());
        let told = progress(node_id, "udp_ping", None);
        let send = Outgoing {
            from: ctx.identity.name.clone(),
            node_id: node_id.to_owned(),
            protocol: "UDP".to_owned(),
            text: ping,
        };
        (Stage::PingSend, told, Action::Send(send))
    } else {
        let r = enter_ws(node_id, peer, sid);
        assert(enters(r, try_ws(ctx@, node_id@, peer@, sid@)));
        r
    }
}

fn worked(ev: &Event) -> (r: bool)
    ensures
        r == is_done(ev@),
{
    match ev {
        Event::Done(b) => *b,
        _ => false,
    }
}

fn up(ev: &Event) -> (r: bool)
    ensures
        r == is_up(ev@),
{
    match ev {
        Event::Live(b) => *b,
        _ => false,
    }
}

fn take_candidates(ev: Event) -> (r: Option<Vec<Candidate>>)
    ensures
        match r {
            Some(v) => came(ev@) == Some(candidates_view(v@)),
            None => came(ev@) is None,
        },
{
    match ev {
        Event::Candidates(c) => c,
        _ => None,
    }
}

fn take_sdp(ev: Event) -> (r: Option<String>)
    ensures
        opt_text(r) == came_sdp(ev@),
{
    match ev {
        Event::Sdp(s) => s,
        _ => None,
    }
}

impl Ladder {
    /// Begin a ladder under a given id for its first negotiation. There is none to
    /// climb where the peer is live already or not known at all.
    pub fn start_with(ctx: &NetCtx, node_id: &str, ticket: u64, sid: String) -> (r: (
        Option<Ladder>,
        Vec<Effect>,
        Action,
    ))
        ensures
            ({
                let s = ladder_start(ctx@, node_id@, sid@);
                &&& effects(r.1@) == s.effects
                &&& r.2@ == s.action
                &&& match r.0 {
                    Some(l) => l@ == (LadderView {
                        node_id: node_id@,
                        peer: ctx@.peers[node_id@],
                        ticket,
                        at: s.at,
                    }) && !(s.at is Finished),
                    None => s.at is Finished,
                }
            }),
    {
        if is_live(ctx, node_id) {
            return (None, progress(node_id, "connected", None), Action::Stop);
        }
        match ctx.peers.get(node_id) {
            None => {
                let told = progress(node_id, "failed", Some("peer not found".to_owned()));
                (None, told, Action::Stop)
            },
            Some(known) => {
                let peer = known.clone();
                let (at, out, action) = enter_ping(ctx, node_id, &peer, sid);
                let l = Ladder { node_id: node_id.to_owned(), peer, ticket, at };
                (Some(l), out, action)
            },
        }
    }

    /// Begin a ladder: `start_with` under a fresh id.
    pub fn start(ctx: &NetCtx, node_id: &str, ticket: u64) -> (r: (
        Option<Ladder>,
        Vec<Effect>,
        Action,
    ))
        ensures
            exists|sid: Seq<char>| #[trigger]
                is_uuid_v4(sid) && ({
                    let s = ladder_start(ctx@, node_id@, sid);
                    &&& effects(r.1@) == s.effects
                    &&& r.2@ == s.action
                    &&& match r.0 {
                        Some(l) => l@ == (LadderView {
                            node_id: node_id@,
                            peer: ctx@.peers[node_id@],
                            ticket,
                            at: s.at,
                        }) && !(s.at is Finished),
                        None => s.at is Finished,
                    }
                }),
    {
        let sid = fresh_uuid();
        assert(is_uuid_v4(sid@));
        Ladder::start_with(ctx, node_id, ticket, sid)
    }

    /// Go on with what became of the last action, under a given id for a negotiation
    /// that may begin.
    pub fn step_with(&mut self, ctx: &mut NetCtx, ev: Event, sid: String) -> (r: (
        Vec<Effect>,
        Action,
    ))
        ensures
            ({
                let s = ladder_step(old(ctx)@, old(self)@, ev@, sid@);
                &&& final(ctx)@ == s.net
                &&& final(self)@ == (LadderView { at: s.at, ..old(self)@ })
                &&& effects(r.0@) == s.effects
                &&& r.1@ == s.action
            }),
    {
        let ghost s = ladder_step(ctx@, self@, ev@, sid@);
        let ghost before = ctx@;
        let entered: Entered = match &self.at {
            Stage::PingSend => if worked(&ev) {
                let e = stay(Stage::PingWait, Action::WaitLive { ms: 2000 });
                assert(enters(e, go_on(before, StageView::PingWait, ActionView::WaitLive { ms: 2000 })));
                e
            } else {
                let e = enter_ws(self.node_id.as_str(), &self.peer, sid);
                assert(enters(e, try_ws(before, self@.node_id, self@.peer, sid@)));
                e
            },
            Stage::PingWait => if up(&ev) {
                let told = progress(self.node_id.as_str(), "connected", Some("udp".to_owned()));
                (Stage::Finished, told, Action::Stop)
            } else {
                let e = enter_ws(self.node_id.as_str(), &self.peer, sid);
                assert(enters(e, try_ws(before, self@.node_id, self@.peer, sid@)));
                e
            },
            Stage::WsDial => if worked(&ev) {
                let e = stay(Stage::WsWait, Action::WaitLive { ms: 3000 });
                assert(enters(e, go_on(before, StageView::WsWait, ActionView::WaitLive { ms: 3000 })));
                e
            } else {
                let e = enter_signal(self.node_id.as_str(), sid);
                assert(enters(e, try_signal(before, self@.node_id, sid@)));
                e
            },
            Stage::WsWait => if up(&ev) {
                let e = stay(Stage::Finished, Action::Stop);
                assert(enters(e, go_on(before, StageView::Finished, ActionView::Stop)));
                e
            } else {
                let e = enter_signal(self.node_id.as_str(), sid);
                assert(enters(e, try_signal(before, self@.node_id, sid@)));
                e
            },
            Stage::SignalSend => if worked(&ev) {
                let e = stay(Stage::SignalWait, Action::WaitLive { ms: 8000 });
                assert(enters(e, go_on(before, StageView::SignalWait, ActionView::WaitLive { ms: 8000 })));
                e
            } else {
                let e = enter_punch(self.node_id.as_str());
                assert(enters(e, try_punch(before, self@.node_id)));
                e
            },
            Stage::SignalWait => if up(&ev) {
                let e = stay(Stage::Finished, Action::Stop);
                assert(enters(e, go_on(before, StageView::Finished, ActionView::Stop)));
                e
            } else {
                let e = enter_punch(self.node_id.as_str());
                assert(enters(e, try_punch(before, self@.node_id)));
                e
            },
            Stage::PunchGather => match take_candidates(ev) {
                Some(candidates) => {
                    ctx.punch_waiters.insert(sid.clone(), self.ticket);
                    let offer = Signal::PunchOffer { sid: sid.clone(), candidates, start_in_ms: 0 };
                    let at = Stage::PunchOffer { sid };
                    let e = stay(at, Action::Signal(offer));
                    assert(enters(e, go_on(ctx@, at@, ActionView::Signal(offer@))));
                    e
                },
                None => {
                    let e = enter_webrtc(self.node_id.as_str());
                    assert(enters(e, try_webrtc(before, self@.node_id)));
                    e
                },
            },
            Stage::PunchOffer { sid: mine } => if worked(&ev) {
                let at = Stage::PunchAnswer { sid: mine.clone() };
                let e = stay(at, Action::AwaitCandidates { secs: 8 });
                assert(enters(e, go_on(before, at@, ActionView::AwaitCandidates { secs: 8 })));
                e
            } else {
                let _ = ctx.punch_waiters.remove(mine.as_str());
                let e = enter_webrtc(self.node_id.as_str());
                assert(enters(e, try_webrtc(ctx@, self@.node_id)));
                e
            },
            Stage::PunchAnswer { sid: mine } => {
                let _ = ctx.punch_waiters.remove(mine.as_str());
                match take_candidates(ev) {
                    Some(candidates) => {
                        let action = Action::Punch { candidates, ms: 9000 };
                        let e = stay(Stage::PunchWait, action);
                        assert(enters(e, go_on(ctx@, StageView::PunchWait, action@)));
                        e
                    },
                    None => {
                        let e = enter_webrtc(self.node_id.as_str());
                        assert(enters(e, try_webrtc(ctx@, self@.node_id)));
                        e
                    },
                }
            },
            Stage::PunchWait => if up(&ev) {
                let e = stay(Stage::Finished, Action::Stop);
                assert(enters(e, go_on(before, StageView::Finished, ActionView::Stop)));
                e
            } else {
                let e = enter_webrtc(self.node_id.as_str());
                assert(enters(e, try_webrtc(before, self@.node_id)));
                e
            },
            Stage::RtcCreate => match take_sdp(ev) {
                Some(sdp) => {
                    ctx.rtc_waiters.insert(sid.clone(), self.ticket);
                    let offer = Signal::SdpOffer { sid: sid.clone(), sdp };
                    let at = Stage::RtcOffer { sid };
                    let e = stay(at, Action::Signal(offer));
                    assert(enters(e, go_on(ctx@, at@, ActionView::Signal(offer@))));
                    e
                },
                None => {
                    let e = enter_failed(self.node_id.as_str());
                    assert(enters(e, give_up(before, self@.node_id)));
                    e
                },
            },
            Stage::RtcOffer { sid: mine } => if worked(&ev) {
                let at = Stage::RtcAnswer { sid: mine.clone() };
                let e = stay(at, Action::AwaitSdp { secs: 10 });
                assert(enters(e, go_on(before, at@, ActionView::AwaitSdp { secs: 10 })));
                e
            } else {
                let _ = ctx.rtc_waiters.remove(mine.as_str());
                let e = enter_failed(self.node_id.as_str());
                assert(enters(e, give_up(ctx@, self@.node_id)));
                e
            },
            Stage::RtcAnswer { sid: mine } => {
                let _ = ctx.rtc_waiters.remove(mine.as_str());
                match take_sdp(ev) {
                    Some(sdp) => {
                        let action = Action::ApplyAnswer { sdp };
                        let e = stay(Stage::RtcApply, action);
                        assert(enters(e, go_on(ctx@, StageView::RtcApply, action@)));
                        e
                    },
                    None => {
                        let e = enter_failed(self.node_id.as_str());
                        assert(enters(e, give_up(ctx@, self@.node_id)));
                        e
                    },
                }
            },
            Stage::RtcApply => if worked(&ev) {
                let e = stay(Stage::RtcWait, Action::WaitLive { ms: 12000 });
                assert(enters(e, go_on(before, StageView::RtcWait, ActionView::WaitLive { ms: 12000 })));
                e
            } else {
                let e = enter_failed(self.node_id.as_str());
                assert(enters(e, give_up(before, self@.node_id)));
                e
            },
            Stage::RtcWait => if up(&ev) {
                let e = stay(Stage::Finished, Action::Stop);
                assert(enters(e, go_on(before, StageView::Finished, ActionView::Stop)));
                e
            } else {
                let e = enter_failed(self.node_id.as_str());
                assert(enters(e, give_up(before, self@.node_id)));
                e
            },
            Stage::Finished => {
                let e = stay(Stage::Finished, Action::Stop);
                assert(enters(e, go_on(before, StageView::Finished, ActionView::Stop)));
                e
            },
        };
        assert(ctx@ == s.net);
        let (at, out, action) = entered;
        self.at = at;
        (out, action)
    }

    /// Go on with what became of the last action: `step_with` under a fresh id.
    pub fn step(&mut self, ctx: &mut NetCtx, ev: Event) -> (r: (Vec<Effect>, Action))
        ensures
            exists|sid: Seq<char>| #[trigger]
                is_uuid_v4(sid) && ({
                    let s = ladder_step(old(ctx)@, old(self)@, ev@, sid);
                    &&& final(ctx)@ == s.net
                    &&& final(self)@ == (LadderView { at: s.at, ..old(self)@ })
                    &&& effects(r.0@) == s.effects
                    &&& r.1@ == s.action
                }),
    {
        let sid = fresh_uuid();
        assert(is_uuid_v4(sid@));
        self.step_with(ctx, ev, sid)
    }
}

impl Engine {
    /// Whether a ladder may be begun: the peer has to be known, so that the user gets
    /// immediate feedback.
    pub fn connect(&self, node_id: &str) -> (r: Result<(), String>)
        ensures
            match r {
                Ok(_) => self@.net.peers.contains_key(node_id@),
                Err(e) => !self@.net.peers.contains_key(node_id@) && e@ == "peer not found"@,
            },
    {
        if self.net.peers.contains_key(node_id) {
            Ok(())
        } else {
            Err("peer not found".to_owned())
        }
    }
}

/// How far a stage is from the end of the ladder.
pub open spec fn stages_left(at: StageView) -> nat {
    match at {
        StageView::PingSend => 15,
        StageView::PingWait => 14,
        StageView::WsDial => 13,
        StageView::WsWait => 12,
        StageView::SignalSend => 11,
        StageView::SignalWait => 10,
        StageView::PunchGather => 9,
        StageView::PunchOffer { .. } => 8,
        StageView::PunchAnswer { .. } => 7,
        StageView::PunchWait => 6,
        StageView::RtcCreate => 5,
        StageView::RtcOffer { .. } => 4,
        StageView::RtcAnswer { .. } => 3,
        StageView::RtcApply => 2,
        StageView::RtcWait => 1,
        StageView::Finished => 0,
    }
}

/// Which rung a stage belongs to, counted from the cheapest.
pub open spec fn rung(at: StageView) -> nat {
    match at {
        StageView::PingSend | StageView::PingWait => 1,
        StageView::WsDial | StageView::WsWait => 2,
        StageView::SignalSend | StageView::SignalWait => 3,
        StageView::PunchGather => 4,
        StageView::PunchOffer { .. } => 4,
        StageView::PunchAnswer { .. } => 4,
        StageView::PunchWait => 4,
        StageView::RtcCreate => 5,
        StageView::RtcOffer { .. } => 5,
        StageView::RtcAnswer { .. } => 5,
        StageView::RtcApply | StageView::RtcWait => 5,
        StageView::Finished => 6,
    }
}

/// Whatever becomes of its actions, a ladder comes closer to its end with every step:
/// it is over after at most 16 actions, and no rung is tried twice. Rungs are tried
/// cheapest-first.
pub proof fn law_ladder_ends(net: NetView, l: LadderView, ev: LadderEventView, sid: Seq<char>)
    requires
        !(l.at is Finished),
    ensures
        stages_left(ladder_step(net, l, ev, sid).at) < stages_left(l.at),
        rung(ladder_step(net, l, ev, sid).at) >= rung(l.at),
        stages_left(l.at) <= 15,
{
}

/// A ladder is over exactly when it says so: `Stop` is the action of the finished
/// ladder and of no other. It finishes either because the peer became live, or with
/// the word that no path was found.
pub proof fn law_ladder_outcome(net: NetView, l: LadderView, ev: LadderEventView, sid: Seq<char>)
    requires
        !(l.at is Finished),
    ensures
        ({
            let s = ladder_step(net, l, ev, sid);
            &&& s.action is Stop <==> s.at is Finished
            &&& s.at is Finished ==> is_up(ev) || s.effects == seq![
                progress_spec(l.node_id, "failed"@, Some("no reachable path"@)),
            ]
            &&& is_up(ev) && (l.at is PingWait || l.at is WsWait || l.at is SignalWait
                || l.at is PunchWait || l.at is RtcWait) ==> s.at is Finished
        }),
{
}

/// The negotiation that a stage waits for, if any.
pub open spec fn waiting_punch(at: StageView) -> Option<Seq<char>> {
    match at {
        StageView::PunchOffer { sid } => Some(sid),
        StageView::PunchAnswer { sid } => Some(sid),
        _ => None,
    }
}

/// The WebRTC negotiation that a stage waits for, if any.
pub open spec fn waiting_rtc(at: StageView) -> Option<Seq<char>> {
    match at {
        StageView::RtcOffer { sid } => Some(sid),
        StageView::RtcAnswer { sid } => Some(sid),
        _ => None,
    }
}

/// The waiters as they were, without the ones of a ladder at the given stage.
pub open spec fn others(net: NetView, at: StageView) -> (Map<Seq<char>, u64>, Map<Seq<char>, u64>) {
    (
        match waiting_punch(at) {
            Some(sid) => net.punch_waiters.remove(sid),
            None => net.punch_waiters,
        },
        match waiting_rtc(at) {
            Some(sid) => net.rtc_waiters.remove(sid),
            None => net.rtc_waiters,
        },
    )
}

/// A ladder leaves no waiter behind: with every step it has at most the waiter of the
/// stage it is at, and everything else in the state stays as it was. (The fresh id is
/// one that nobody waits for yet.)
pub proof fn law_ladder_leaves_no_waiter(
    net: NetView,
    l: LadderView,
    ev: LadderEventView,
    sid: Seq<char>,
)
    requires
        !net.punch_waiters.contains_key(sid),
        !net.rtc_waiters.contains_key(sid),
    ensures
        ({
            let s = ladder_step(net, l, ev, sid);
            &&& others(s.net, s.at) == others(net, l.at)
            &&& s.net == (NetView {
                punch_waiters: s.net.punch_waiters,
                rtc_waiters: s.net.rtc_waiters,
                ..net
            })
        }),
{
    let s = ladder_step(net, l, ev, sid);
    assert(others(s.net, s.at).0 =~= others(net, l.at).0);
    assert(others(s.net, s.at).1 =~= others(net, l.at).1);
}

/// The rung that a ladder begins with is the cheapest that fits the peer: a UDP ping
/// on our own LAN, else its WebSocket if it advertises one, else a signal.
pub proof fn law_ladder_begins_cheapest(net: NetView, node_id: Seq<char>, sid: Seq<char>)
    requires
        net.peers.contains_key(node_id),
        !net.p2p_conns.contains_key(node_id),
    ensures
        ({
            let peer = net.peers[node_id];
            rung(ladder_start(net, node_id, sid).at) == if same_lan_spec(net, peer) {
                1nat
            } else if ws_advertised(peer) {
                2
            } else {
                3
            }
        }),
{
}

} // verus!
