//! Signaling protocol exchanged between a user's devices via the server's
//! `/signal` relay. These messages coordinate connection setup when a direct path
//! isn't already available; the resulting data channel still uses the end-to-end
//! encrypted transports (the server never sees message content or keys).
//!
//! `sid` correlates a negotiation; punch timing is relative (`start_in_ms`) to
//! avoid wall-clock skew.

use vstd::prelude::*;

verus! {

/// An ICE-style connection candidate.
#[derive(Debug)]
pub struct Candidate {
    pub ip: String,
    pub port: u16,
    /// "host" (LAN) | "srflx" (STUN reflexive)
    pub kind: String,
}

#[verifier::ext_equal]
pub struct CandidateView {
    pub ip: Seq<char>,
    pub port: u16,
    pub kind: Seq<char>,
}

impl View for Candidate {
    type V = CandidateView;

    open spec fn view(&self) -> CandidateView {
        CandidateView { ip: self.ip@, port: self.port, kind: self.kind@ }
    }
}

impl Clone for Candidate {
    fn clone(&self) -> (r: Self)
        ensures
            r == *self,
    {
        Candidate { ip: self.ip.clone(), port: self.port, kind: self.kind.clone() }
    }
}

/// The candidates, each by its view.
pub open spec fn candidates_view(s: Seq<Candidate>) -> Seq<CandidateView> {
    s.map_values(|c: Candidate| c@)
}

#[derive(Debug)]
pub enum Signal {
    /// "open your WS server and tell me when it's reachable".
    StartWs { sid: String },
    /// Sent after the WS server is live; the initiator dials this endpoint.
    WsReady { sid: String, ip: String, ws_port: u16 },
    /// Couldn't open a reachable WS (e.g. also firewalled).
    WsUnavailable { sid: String, reason: String },
    /// UDP hole punch: exchange candidates and a relative start time.
    PunchOffer { sid: String, candidates: Vec<Candidate>, start_in_ms: u64 },
    PunchAnswer { sid: String, candidates: Vec<Candidate>, start_in_ms: u64 },
    /// Both sides saw each other's probes; promote to the data channel.
    PunchReady { sid: String },
    /// Punch failed: escalate to TURN.
    PunchFailed { sid: String, reason: String },
    /// TURN relay fallback with ephemeral credentials.
    RelayOffer { sid: String, turn_uri: String, username: String, credential: String },
    RelayAnswer { sid: String },
    /// WebRTC data-channel offer/answer. The `sdp` already embeds the host and
    /// reflexive candidates (no trickle ICE), so the exchange is one message each
    /// way.
    SdpOffer { sid: String, sdp: String },
    SdpAnswer { sid: String, sdp: String },
    /// Abort / teardown.
    Bye { sid: String },
}

#[verifier::ext_equal]
pub enum SignalView {
    StartWs { sid: Seq<char> },
    WsReady { sid: Seq<char>, ip: Seq<char>, ws_port: u16 },
    WsUnavailable { sid: Seq<char>, reason: Seq<char> },
    PunchOffer { sid: Seq<char>, candidates: Seq<CandidateView>, start_in_ms: u64 },
    PunchAnswer { sid: Seq<char>, candidates: Seq<CandidateView>, start_in_ms: u64 },
    PunchReady { sid: Seq<char> },
    PunchFailed { sid: Seq<char>, reason: Seq<char> },
    RelayOffer {
        sid: Seq<char>,
        turn_uri: Seq<char>,
        username: Seq<char>,
        credential: Seq<char>,
    },
    RelayAnswer { sid: Seq<char> },
    SdpOffer { sid: Seq<char>, sdp: Seq<char> },
    SdpAnswer { sid: Seq<char>, sdp: Seq<char> },
    Bye { sid: Seq<char> },
}

impl View for Signal {
    type V = SignalView;

    open spec fn view(&self) -> SignalView {
        match self {
            Signal::StartWs { sid } => SignalView::StartWs { sid: sid@ },
            Signal::WsReady { sid, ip, ws_port } => SignalView::WsReady {
                sid: sid@,
                ip: ip@,
                ws_port: *ws_port,
            },
            Signal::WsUnavailable { sid, reason } => SignalView::WsUnavailable {
                sid: sid@,
                reason: reason@,
            },
            Signal::PunchOffer { sid, candidates, start_in_ms } => SignalView::PunchOffer {
                sid: sid@,
                candidates: candidates_view(candidates@),
                start_in_ms: *start_in_ms,
            },
            Signal::PunchAnswer { sid, candidates, start_in_ms } => SignalView::PunchAnswer {
                sid: sid@,
                candidates: candidates_view(candidates@),
                start_in_ms: *start_in_ms,
            },
            Signal::PunchReady { sid } => SignalView::PunchReady { sid: sid@ },
            Signal::PunchFailed { sid, reason } => SignalView::PunchFailed {
                sid: sid@,
                reason: reason@,
            },
            Signal::RelayOffer { sid, turn_uri, username, credential } => SignalView::RelayOffer {
                sid: sid@,
                turn_uri: turn_uri@,
                username: username@,
                credential: credential@,
            },
            Signal::RelayAnswer { sid } => SignalView::RelayAnswer { sid: sid@ },
            Signal::SdpOffer { sid, sdp } => SignalView::SdpOffer { sid: sid@, sdp: sdp@ },
            Signal::SdpAnswer { sid, sdp } => SignalView::SdpAnswer { sid: sid@, sdp: sdp@ },
            Signal::Bye { sid } => SignalView::Bye { sid: sid@ },
        }
    }
}

fn clone_candidates(v: &Vec<Candidate>) -> (r: Vec<Candidate>)
    ensures
        r@ == v@,
{
    let mut out: Vec<Candidate> = Vec::new();
    for i in 0..v.len()
        invariant
            out@ == v@.take(i as int),
    {
        out.push(v[i].clone());
        assert(v@.take(i + 1) =~= v@.take(i as int).push(v@[i as int]));
    }
    assert(v@.take(v@.len() as int) =~= v@);
    out
}

impl Clone for Signal {
    fn clone(&self) -> (r: Self)
        ensures
            r@ == self@,
    {
        match self {
            Signal::StartWs { sid } => Signal::StartWs { sid: sid.clone() },
            Signal::WsReady { sid, ip, ws_port } => Signal::WsReady {
                sid: sid.clone(),
                ip: ip.clone(),
                ws_port: *ws_port,
            },
            Signal::WsUnavailable { sid, reason } => Signal::WsUnavailable {
                sid: sid.clone(),
                reason: reason.clone(),
            },
            Signal::PunchOffer { sid, candidates, start_in_ms } => Signal::PunchOffer {
                sid: sid.clone(),
                candidates: clone_candidates(candidates),
                start_in_ms: *start_in_ms,
            },
            Signal::PunchAnswer { sid, candidates, start_in_ms } => Signal::PunchAnswer {
                sid: sid.clone(),
                candidates: clone_candidates(candidates),
                start_in_ms: *start_in_ms,
            },
            Signal::PunchReady { sid } => Signal::PunchReady { sid: sid.clone() },
            Signal::PunchFailed { sid, reason } => Signal::PunchFailed {
                sid: sid.clone(),
                reason: reason.clone(),
            },
            Signal::RelayOffer { sid, turn_uri, username, credential } => Signal::RelayOffer {
                sid: sid.clone(),
                turn_uri: turn_uri.clone(),
                username: username.clone(),
                credential: credential.clone(),
            },
            Signal::RelayAnswer { sid } => Signal::RelayAnswer { sid: sid.clone() },
            Signal::SdpOffer { sid, sdp } => Signal::SdpOffer {
                sid: sid.clone(),
                sdp: sdp.clone(),
            },
            Signal::SdpAnswer { sid, sdp } => Signal::SdpAnswer {
                sid: sid.clone(),
                sdp: sdp.clone(),
            },
            Signal::Bye { sid } => Signal::Bye { sid: sid.clone() },
        }
    }
}

} // verus!
