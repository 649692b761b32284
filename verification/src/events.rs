//! UI-bound events, the sink that delivers them, and what else the core asks its
//! host to do. The sink unifies two very different delivery models:
//!   * a desktop host bridges each event to its window (push),
//!   * a phone host records events into an inbox that is drained by polling.
//!
//! The core returns its events as effects; the host hands each to
//! `EventSink::emit`, in order, and performs the others.

use vstd::prelude::*;

use crate::model::{IncomingMessage, IncomingView, Peer, PeerView};
use crate::text::{clone_opt, opt_text};
use crate::transport::TransportKind;

verus! {

pub enum CoreEvent {
    /// The peer list changed (discovery, registry refresh, manual add/remove).
    PeersUpdated { peers: Vec<Peer> },
    /// A decrypted (or undecryptable) chat message arrived.
    MessageReceived(IncomingMessage),
    /// A WebSocket connection to a peer was established.
    WsConnected { node_id: String },
    /// A WebSocket connection to a peer closed.
    WsDisconnected { node_id: String },
    /// A live peer-to-peer connection came up (over any transport). This is the
    /// single source of truth for the UI "connected" (green) indicator.
    PeerConnected { node_id: String, transport: TransportKind },
    /// A live peer-to-peer connection went away (closed or went stale).
    PeerDisconnected { node_id: String },
    /// Progress of an in-flight connection ladder, for UI feedback.
    ConnectProgress { node_id: String, stage: String, detail: Option<String> },
    /// A clipboard value was synced from a peer (active mode).
    Clipboard { from: String, ip: String, protocol: String, action: String },
    /// A peer shared an OS notification.
    Notification { from: String, title: String, body: String, app: Option<String> },
    /// A peer shared an incoming/missed/ended call notification; `state` is
    /// "ringing", "missed", "ended" or another word.
    CallNotification { from: String, caller: String, number: Option<String>, state: String },
    /// A peer shared call-history entries (opaque JSON text).
    CallHistory { from: String, entries: String },
    /// A producer device returned its shareable app list and which of them this
    /// device is currently subscribed to (both JSON text).
    AppsList { from: String, apps: String, subscribed: String },
}

#[verifier::ext_equal]
pub enum EventView {
    PeersUpdated { peers: Seq<PeerView> },
    MessageReceived(IncomingView),
    WsConnected { node_id: Seq<char> },
    WsDisconnected { node_id: Seq<char> },
    PeerConnected { node_id: Seq<char>, transport: TransportKind },
    PeerDisconnected { node_id: Seq<char> },
    ConnectProgress { node_id: Seq<char>, stage: Seq<char>, detail: Option<Seq<char>> },
    Clipboard { from: Seq<char>, ip: Seq<char>, protocol: Seq<char>, action: Seq<char> },
    Notification { from: Seq<char>, title: Seq<char>, body: Seq<char>, app: Option<Seq<char>> },
    CallNotification {
        from: Seq<char>,
        caller: Seq<char>,
        number: Option<Seq<char>>,
        state: Seq<char>,
    },
    CallHistory { from: Seq<char>, entries: Seq<char> },
    AppsList { from: Seq<char>, apps: Seq<char>, subscribed: Seq<char> },
}

/// The peers, each by its view.
pub open spec fn peers_view(s: Seq<Peer>) -> Seq<PeerView> {
    s.map_values(|p: Peer| p@)
}

impl View for CoreEvent {
    type V = EventView;

    open spec fn view(&self) -> EventView {
        match self {
            CoreEvent::PeersUpdated { peers } => EventView::PeersUpdated {
                peers: peers_view(peers@),
            },
            CoreEvent::MessageReceived(m) => EventView::MessageReceived(m@),
            CoreEvent::WsConnected { node_id } => EventView::WsConnected { node_id: node_id@ },
            CoreEvent::WsDisconnected { node_id } => EventView::WsDisconnected {
                node_id: node_id@,
            },
            CoreEvent::PeerConnected { node_id, transport } => EventView::PeerConnected {
                node_id: node_id@,
                transport: *transport,
            },
            CoreEvent::PeerDisconnected { node_id } => EventView::PeerDisconnected {
                node_id: node_id@,
            },
            CoreEvent::ConnectProgress { node_id, stage, detail } => EventView::ConnectProgress {
                node_id: node_id@,
                stage: stage@,
                detail: opt_text(*detail),
            },
            CoreEvent::Clipboard { from, ip, protocol, action } => EventView::Clipboard {
                from: from@,
                ip: ip@,
                protocol: protocol@,
                action: action@,
            },
            CoreEvent::Notification { from, title, body, app } => EventView::Notification {
                from: from@,
                title: title@,
                body: body@,
                app: opt_text(*app),
            },
            CoreEvent::CallNotification { from, caller, number, state } => {
                EventView::CallNotification {
                    from: from@,
                    caller: caller@,
                    number: opt_text(*number),
                    state: state@,
                }
            },
            CoreEvent::CallHistory { from, entries } => EventView::CallHistory {
                from: from@,
                entries: entries@,
            },
            CoreEvent::AppsList { from, apps, subscribed } => EventView::AppsList {
                from: from@,
                apps: apps@,
                subscribed: subscribed@,
            },
        }
    }
}

fn clone_peers(v: &Vec<Peer>) -> (r: Vec<Peer>)
    ensures
        r@ == v@,
{
    let mut out: Vec<Peer> = Vec::new();
    for i in 0..v.len()
        invariant
            out@ == v@.take(i as int),
    {
        out.push(v[i].clone());
        assert(v@.take(i + 1) =~= v@.take(i as int).push(v@[i as int]));
    }
    assert(v@.take(v@.len() as int) =~= v@);
    out
}

impl Clone for CoreEvent {
    fn clone(&self) -> (r: Self)
        ensures
            r@ == self@,
    {
        match self {
            CoreEvent::PeersUpdated { peers } => CoreEvent::PeersUpdated {
                peers: clone_peers(peers),
            },
            CoreEvent::MessageReceived(m) => CoreEvent::MessageReceived(m.clone()),
            CoreEvent::WsConnected { node_id } => CoreEvent::WsConnected {
                node_id: node_id.clone(),
            },
            CoreEvent::WsDisconnected { node_id } => CoreEvent::WsDisconnected {
                node_id: node_id.clone(),
            },
            CoreEvent::PeerConnected { node_id, transport } => CoreEvent::PeerConnected {
                node_id: node_id.clone(),
                transport: *transport,
            },
            CoreEvent::PeerDisconnected { node_id } => CoreEvent::PeerDisconnected {
                node_id: node_id.clone(),
            },
            CoreEvent::ConnectProgress { node_id, stage, detail } => CoreEvent::ConnectProgress {
                node_id: node_id.clone(),
                stage: stage.clone(),
                detail: clone_opt(detail),
            },
            CoreEvent::Clipboard { from, ip, protocol, action } => CoreEvent::Clipboard {
                from: from.clone(),
                ip: ip.clone(),
                protocol: protocol.clone(),
                action: action.clone(),
            },
            CoreEvent::Notification { from, title, body, app } => CoreEvent::Notification {
                from: from.clone(),
                title: title.clone(),
                body: body.clone(),
                app: clone_opt(app),
            },
            CoreEvent::CallNotification { from, caller, number, state } => {
                CoreEvent::CallNotification {
                    from: from.clone(),
                    caller: caller.clone(),
                    number: clone_opt(number),
                    state: state.clone(),
                }
            },
            CoreEvent::CallHistory { from, entries } => CoreEvent::CallHistory {
                from: from.clone(),
                entries: entries.clone(),
            },
            CoreEvent::AppsList { from, apps, subscribed } => CoreEvent::AppsList {
                from: from.clone(),
                apps: apps.clone(),
                subscribed: subscribed.clone(),
            },
        }
    }
}

pub trait EventSink: Send + Sync + 'static {
    fn emit(&self, ev: CoreEvent);
}

/// A message to encrypt and send: who it says it is from, to which peer, over which
/// transport ("WS", "TCP" or "UDP"), and its text.
pub struct Outgoing {
    pub from: String,
    pub node_id: String,
    pub protocol: String,
    pub text: String,
}

#[verifier::ext_equal]
pub struct OutgoingView {
    pub from: Seq<char>,
    pub node_id: Seq<char>,
    pub protocol: Seq<char>,
    pub text: Seq<char>,
}

impl View for Outgoing {
    type V = OutgoingView;

    open spec fn view(&self) -> OutgoingView {
        OutgoingView {
            from: self.from@,
            node_id: self.node_id@,
            protocol: self.protocol@,
            text: self.text@,
        }
    }
}

/// Something the core asks its host to do.
pub enum Effect {
    /// Deliver an event to the UI.
    Emit(CoreEvent),
    /// Send a message; whether that works is nobody's concern.
    Send(Outgoing),
    /// Put a text on the clipboard.
    SetClipboard(String),
    /// Post a local notification.
    Notify { title: String, body: String },
    /// Read the clipboard and answer this peer with it.
    ReadClipboard { requester: String },
    /// Hand a peer's clipboard to the pull with this ticket.
    AnswerPull { ticket: u64, content: String },
}

#[verifier::ext_equal]
pub enum EffectView {
    Emit(EventView),
    Send(OutgoingView),
    SetClipboard(Seq<char>),
    Notify { title: Seq<char>, body: Seq<char> },
    ReadClipboard { requester: Seq<char> },
    AnswerPull { ticket: u64, content: Seq<char> },
}

impl View for Effect {
    type V = EffectView;

    open spec fn view(&self) -> EffectView {
        match self {
            Effect::Emit(e) => EffectView::Emit(e@),
            Effect::Send(o) => EffectView::Send(o@),
            Effect::SetClipboard(s) => EffectView::SetClipboard(s@),
            Effect::Notify { title, body } => EffectView::Notify { title: title@, body: body@ },
            Effect::ReadClipboard { requester } => EffectView::ReadClipboard {
                requester: requester@,
            },
            Effect::AnswerPull { ticket, content } => EffectView::AnswerPull {
                ticket: *ticket,
                content: content@,
            },
        }
    }
}

/// The effects, each by its view.
pub open spec fn effects(s: Seq<Effect>) -> Seq<EffectView> {
    s.map_values(|e: Effect| e@)
}

/// The messages, each by its view.
pub open spec fn outgoing(s: Seq<Outgoing>) -> Seq<OutgoingView> {
    s.map_values(|o: Outgoing| o@)
}

/// No effect at all.
pub fn no_effects() -> (r: Vec<Effect>)
    ensures
        effects(r@) == Seq::<EffectView>::empty(),
{
    let r: Vec<Effect> = Vec::new();
    assert(effects(r@) =~= Seq::<EffectView>::empty());
    r
}

/// A single effect.
pub fn one_effect(e: Effect) -> (r: Vec<Effect>)
    ensures
        effects(r@) == seq![e@],
{
    let mut r: Vec<Effect> = Vec::new();
    r.push(e);
    assert(effects(r@) =~= seq![e@]);
    r
}

/// Add one more effect.
pub fn add_effect(list: &mut Vec<Effect>, e: Effect)
    ensures
        effects(final(list)@) == effects(old(list)@).push(e@),
{
    list.push(e);
    assert(effects(list@) =~= effects(old(list)@).push(e@));
}

/// Add more effects behind the others.
pub fn add_effects(list: &mut Vec<Effect>, more: Vec<Effect>)
    ensures
        effects(final(list)@) == effects(old(list)@) + effects(more@),
{
    let mut more = more;
    let ghost tail = more@;
    list.append(&mut more);
    assert(effects(list@) =~= effects(old(list)@) + effects(tail));
}

} // verus!
