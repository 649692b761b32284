//! WebSocket transport: a persistent, bidirectional connection. Whichever side can
//! reach the other "triggers" it; thereafter messages flow both ways over the single
//! socket. One connection per peer (duplicates are dropped).

use vstd::prelude::*;

use super::{drop_live, dropped_live, mark_live, marked_live, TransportKind};
use crate::engine::{NetCtx, NetView};
use crate::events::{
    add_effects, effects, no_effects, one_effect, CoreEvent, Effect, EffectView, EventView,
};
use crate::model::{Envelope, EnvelopeView, WsFrame, WsFrameView};
use crate::net::{ipv4_of, Endpoint, Ipv4};
use crate::text::{decimal, decimal_text, join, opt_text};

verus! {

/// Whether the link of a peer is the one with this connection id.
pub open spec fn owns_slot(net: NetView, node_id: Seq<char>, conn: u64) -> bool {
    net.ws_conns.contains_key(node_id) && net.ws_conns[node_id] == conn
}

/// Whether the link of a peer is the one with this connection id.
pub fn holds_slot(ctx: &NetCtx, node_id: &str, conn: u64) -> (r: bool)
    ensures
        r == owns_slot(ctx@, node_id@, conn),
{
    match ctx.ws_conns.get(node_id) {
        Some(id) => *id == conn,
        None => false,
    }
}

/// The state once a link has given up its slot, if it still had it.
pub open spec fn slot_released(net: NetView, node_id: Seq<char>, conn: u64) -> NetView {
    if owns_slot(net, node_id, conn) {
        NetView { ws_conns: net.ws_conns.remove(node_id), ..net }
    } else {
        net
    }
}

/// Give up a link's slot, if it still has it (a newer connection may have replaced
/// it). Says whether it had it.
pub fn release_slot(ctx: &mut NetCtx, node_id: &str, conn: u64) -> (r: bool)
    ensures
        r == owns_slot(old(ctx)@, node_id@, conn),
        final(ctx)@ == slot_released(old(ctx)@, node_id@, conn),
{
    if holds_slot(ctx, node_id, conn) {
        let _ = ctx.ws_conns.remove(node_id);
        true
    } else {
        false
    }
}

/// How this device announces itself on a fresh socket.
pub fn hello(ctx: &NetCtx) -> (r: WsFrame)
    ensures
        r@ == (WsFrameView::Hello {
            node_id: ctx@.identity.node_id,
            name: ctx@.identity.name,
        }),
{
    WsFrame::Hello { node_id: ctx.identity.node_id.clone(), name: ctx.identity.name.clone() }
}

/// One WebSocket connection: its id, and the peer that has announced itself on it.
pub struct WsSession {
    pub conn_id: u64,
    pub peer_id: Option<String>,
}

/// The state and the effects once a peer has announced itself on a socket; `None`
/// where it has a link already, and the socket is to be closed.
pub open spec fn announced(net: NetView, conn: u64, node_id: Seq<char>, now: u64) -> Option<
    (NetView, Seq<EffectView>),
> {
    if net.ws_conns.contains_key(node_id) {
        None
    } else {
        let joined = NetView { ws_conns: net.ws_conns.insert(node_id, conn), ..net };
        let live = marked_live(joined, node_id, TransportKind::Ws, None, now);
        Some((live.0, seq![EffectView::Emit(EventView::WsConnected { node_id })] + live.1))
    }
}

/// The state and the effects once a socket has closed.
pub open spec fn closed(net: NetView, conn: u64, peer_id: Option<Seq<char>>) -> (
    NetView,
    Seq<EffectView>,
) {
    match peer_id {
        Some(node_id) => if owns_slot(net, node_id, conn) {
            let down = dropped_live(slot_released(net, node_id, conn), node_id);
            (down.0, seq![EffectView::Emit(EventView::WsDisconnected { node_id })] + down.1)
        } else {
            (net, Seq::empty())
        },
        None => (net, Seq::empty()),
    }
}

/// What comes in on a socket.
pub enum WsInput {
    /// A text that is a frame.
    Frame(WsFrame),
    /// Nothing of concern: a text that is no frame, another kind of message, or no
    /// message yet.
    Idle,
    /// The peer closed the connection, or it broke.
    Closed,
}

#[verifier::ext_equal]
pub enum WsInputView {
    Frame(WsFrameView),
    Idle,
    Closed,
}

impl View for WsInput {
    type V = WsInputView;

    open spec fn view(&self) -> WsInputView {
        match self {
            WsInput::Frame(f) => WsInputView::Frame(f@),
            WsInput::Idle => WsInputView::Idle,
            WsInput::Closed => WsInputView::Closed,
        }
    }
}

/// What to do about it.
pub enum WsReply {
    /// Perform these effects and go on.
    Perform(Vec<Effect>),
    /// Deliver this envelope (as from no address, over "WS") and go on.
    Deliver(Envelope),
    /// Go on.
    Nothing,
    /// Stop reading, and clean up with `on_close`.
    Stop,
}

#[verifier::ext_equal]
pub enum WsReplyView {
    Perform(Seq<EffectView>),
    Deliver(EnvelopeView),
    Nothing,
    Stop,
}

impl View for WsReply {
    type V = WsReplyView;

    open spec fn view(&self) -> WsReplyView {
        match self {
            WsReply::Perform(list) => WsReplyView::Perform(effects(list@)),
            WsReply::Deliver(env) => WsReplyView::Deliver(env@),
            WsReply::Nothing => WsReplyView::Nothing,
            WsReply::Stop => WsReplyView::Stop,
        }
    }
}

/// The state, the announced peer and the reply once something has come in.
pub open spec fn ws_step(
    net: NetView,
    conn: u64,
    peer_id: Option<Seq<char>>,
    input: WsInputView,
    now: u64,
) -> (NetView, Option<Seq<char>>, WsReplyView) {
    match input {
        WsInputView::Frame(WsFrameView::Hello { node_id, .. }) => match announced(
            net,
            conn,
            node_id,
            now,
        ) {
            Some(outcome) => (outcome.0, Some(node_id), WsReplyView::Perform(outcome.1)),
            None => (net, peer_id, WsReplyView::Stop),
        },
        WsInputView::Frame(WsFrameView::Msg { nonce, ciphertext }) => (
            net,
            peer_id,
            WsReplyView::Deliver(EnvelopeView { nonce, ciphertext }),
        ),
        WsInputView::Idle => (net, peer_id, WsReplyView::Nothing),
        WsInputView::Closed => (net, peer_id, WsReplyView::Stop),
    }
}

impl WsSession {
    pub fn new(conn_id: u64) -> (r: WsSession)
        ensures
            r.conn_id == conn_id,
            r.peer_id is None,
    {
        WsSession { conn_id, peer_id: None }
    }

    /// A peer announced itself. One socket per peer: `None` says that this one is a
    /// duplicate, to be closed.
    pub fn on_hello(&mut self, ctx: &mut NetCtx, node_id: String, now: u64) -> (r: Option<
        Vec<Effect>,
    >)
        ensures
            final(self).conn_id == old(self).conn_id,
            match announced(old(ctx)@, old(self).conn_id, node_id@, now) {
                Some(outcome) => {
                    &&& r is Some
                    &&& final(ctx)@ == outcome.0
                    &&& effects(r->0@) == outcome.1
                    &&& opt_text(final(self).peer_id) == Some(node_id@)
                },
                None => {
                    &&& r is None
                    &&& final(ctx)@ == old(ctx)@
                    &&& opt_text(final(self).peer_id) == opt_text(old(self).peer_id)
                },
            },
    {
        if ctx.ws_conns.contains_key(node_id.as_str()) {
            return None;
        }
        ctx.ws_conns.insert(node_id.clone(), self.conn_id);
        let mut out = one_effect(
            Effect::Emit(CoreEvent::WsConnected { node_id: node_id.clone() }),
        );
        let live = mark_live(ctx, node_id.as_str(), TransportKind::Ws, None, now);
        add_effects(&mut out, live);
        self.peer_id = Some(node_id);
        Some(out)
    }

    /// Something came in.
    pub fn on_input(&mut self, ctx: &mut NetCtx, input: WsInput, now: u64) -> (r: WsReply)
        ensures
            final(self).conn_id == old(self).conn_id,
            ({
                let s = ws_step(
                    old(ctx)@,
                    old(self).conn_id,
                    opt_text(old(self).peer_id),
                    input@,
                    now,
                );
                &&& final(ctx)@ == s.0
                &&& opt_text(final(self).peer_id) == s.1
                &&& r@ == s.2
            }),
    {
        match input {
            WsInput::Frame(WsFrame::Hello { node_id, name }) => {
                match self.on_hello(ctx, node_id, now) {
                    Some(out) => WsReply::Perform(out),
                    None => WsReply::Stop,
                }
            },
            WsInput::Frame(WsFrame::Msg { nonce, ciphertext }) => WsReply::Deliver(
                Envelope { nonce, ciphertext },
            ),
            WsInput::Idle => WsReply::Nothing,
            WsInput::Closed => WsReply::Stop,
        }
    }

    /// The socket closed: take down the peer's link, if it is still this one.
    pub fn on_close(&self, ctx: &mut NetCtx) -> (r: Vec<Effect>)
        ensures
            final(ctx)@ == closed(old(ctx)@, self.conn_id, opt_text(self.peer_id)).0,
            effects(r@) == closed(old(ctx)@, self.conn_id, opt_text(self.peer_id)).1,
    {
        match &self.peer_id {
            Some(pid) => {
                if release_slot(ctx, pid.as_str(), self.conn_id) {
                    let mut out = one_effect(
                        Effect::Emit(CoreEvent::WsDisconnected { node_id: pid.clone() }),
                    );
                    let down = drop_live(ctx, pid.as_str());
                    add_effects(&mut out, down);
                    out
                } else {
                    no_effects()
                }
            },
            None => no_effects(),
        }
    }
}

/// A connection that opens and closes again leaves the links as they were before,
/// and tells the UI of both.
pub proof fn law_open_then_close(net: NetView, conn: u64, node_id: Seq<char>, now: u64)
    requires
        !net.ws_conns.contains_key(node_id),
        !net.p2p_conns.contains_key(node_id),
    ensures
        announced(net, conn, node_id, now) is Some,
        ({
            let up = announced(net, conn, node_id, now)->0;
            let down = closed(up.0, conn, Some(node_id));
            &&& owns_slot(up.0, node_id, conn)
            &&& up.0.p2p_conns.contains_key(node_id)
            &&& down.0 == net
            &&& up.1 == seq![
                EffectView::Emit(EventView::WsConnected { node_id }),
                EffectView::Emit(EventView::PeerConnected { node_id, transport: TransportKind::Ws }),
            ]
            &&& down.1 == seq![
                EffectView::Emit(EventView::WsDisconnected { node_id }),
                EffectView::Emit(EventView::PeerDisconnected { node_id }),
            ]
        }),
{
    let up = announced(net, conn, node_id, now)->0;
    let down = closed(up.0, conn, Some(node_id));
    assert(down.0.ws_conns =~= net.ws_conns);
    assert(down.0.p2p_conns =~= net.p2p_conns);
    assert(up.1 =~= seq![
        EffectView::Emit(EventView::WsConnected { node_id }),
        EffectView::Emit(EventView::PeerConnected { node_id, transport: TransportKind::Ws }),
    ]);
    assert(down.1 =~= seq![
        EffectView::Emit(EventView::WsDisconnected { node_id }),
        EffectView::Emit(EventView::PeerDisconnected { node_id }),
    ]);
}

/// A socket that closes after a newer link has taken its place does not take that
/// link down.
pub proof fn law_close_spares_newer_link(net: NetView, conn: u64, node_id: Seq<char>)
    requires
        !owns_slot(net, node_id, conn),
    ensures
        closed(net, conn, Some(node_id)) == (net, Seq::<EffectView>::empty()),
{
}

/// The URL of a peer's WebSocket server.
pub open spec fn ws_url(ip: Seq<char>, ws_port: u16) -> Seq<char> {
    "ws://"@ + ip + ":"@ + decimal(ws_port as nat) + "/"@
}

/// Where and what to dial to reach a peer's WebSocket listener; an error where its
/// address is no IPv4 address.
pub fn ws_connect(ip: &str, ws_port: u16) -> (r: Result<(Endpoint, String), String>)
    ensures
        match ipv4_of(ip@) {
            Some(a) => r matches Ok(t) && t.0 == (Endpoint { ip: a, port: ws_port }) && t.1@
                == ws_url(ip@, ws_port),
            None => r matches Err(e) && e@ == "bad peer ip"@,
        },
{
    match Ipv4::parse(ip) {
        None => Err("bad peer ip".to_owned()),
        Some(a) => {
            let host = join("ws://", ip);
            let with_colon = join(host.as_str(), ":");
            let port = decimal_text(ws_port as u64);
            let with_port = join(with_colon.as_str(), port.as_str());
            Ok((Endpoint::new(a, ws_port), join(with_port.as_str(), "/")))
        },
    }
}

} // verus!
