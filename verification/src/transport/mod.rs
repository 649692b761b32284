//! Direct messaging (UDP / TCP), the registry of live links, and the shared
//! incoming-message pipeline. WebSocket, hole-punched and WebRTC links live in
//! submodules.
//!
//! The wire format here is protocol v1 (a JSON `Envelope` carrying `Plaintext`).

pub mod chunk;
pub mod incoming;
pub mod punch;
pub mod rtc;
pub mod send;
pub mod ws;

use vstd::prelude::*;

use crate::engine::{NetCtx, NetView};
use crate::events::{
    effects, no_effects, one_effect, CoreEvent, Effect, EffectView, EventView,
};
use crate::net::Endpoint;

pub use self::incoming::handle_incoming;
pub use self::send::{best_proto, broadcast_control, send_control_to, send_payload};

verus! {

/// Which transport a live P2P link is using.
#[derive(Clone, Copy, Debug, PartialEq, Eq, Structural)]
pub enum TransportKind {
    Ws,
    Udp,
    Punch,
    WebRtc,
}

/// A live peer-to-peer link. `last_seen` drives heartbeat staleness for the
/// connectionless transports (UDP/Punch/WebRtc); WS is event-driven.
#[derive(Clone, Copy, Debug, PartialEq, Eq)]
pub struct P2pConn {
    pub kind: TransportKind,
    pub last_seen: u64,
    pub addr: Option<Endpoint>,
}

impl View for P2pConn {
    type V = P2pConn;

    open spec fn view(&self) -> P2pConn {
        *self
    }
}

/// A link after a sign of life at `now`: its kind stays as it was established.
pub open spec fn refreshed(c: P2pConn, addr: Option<Endpoint>, now: u64) -> P2pConn {
    P2pConn {
        kind: c.kind,
        last_seen: now,
        addr: if addr is Some {
            addr
        } else {
            c.addr
        },
    }
}

/// The state and the effects once a peer has been marked live.
pub open spec fn marked_live(
    net: NetView,
    node_id: Seq<char>,
    kind: TransportKind,
    addr: Option<Endpoint>,
    now: u64,
) -> (NetView, Seq<EffectView>) {
    if net.p2p_conns.contains_key(node_id) {
        (
            NetView {
                p2p_conns: net.p2p_conns.insert(
                    node_id,
                    refreshed(net.p2p_conns[node_id], addr, now),
                ),
                ..net
            },
            Seq::empty(),
        )
    } else {
        (
            NetView {
                p2p_conns: net.p2p_conns.insert(node_id, P2pConn { kind, last_seen: now, addr }),
                ..net
            },
            seq![EffectView::Emit(EventView::PeerConnected { node_id, transport: kind })],
        )
    }
}

/// Mark a peer live (first time) or refresh an existing link. The transport is
/// fixed at establishment by whoever created the link (ws/punch/webrtc); a refresh
/// (e.g. a heartbeat ping) only bumps `last_seen` and never downgrades the kind.
/// `PeerConnected` comes only on first appearance.
pub fn mark_live(
    ctx: &mut NetCtx,
    node_id: &str,
    kind: TransportKind,
    addr: Option<Endpoint>,
    now: u64,
) -> (r: Vec<Effect>)
    ensures
        final(ctx)@ == marked_live(old(ctx)@, node_id@, kind, addr, now).0,
        effects(r@) == marked_live(old(ctx)@, node_id@, kind, addr, now).1,
{
    let known: Option<P2pConn> = match ctx.p2p_conns.get(node_id) {
        Some(c) => Some(*c),
        None => None,
    };
    match known {
        Some(c) => {
            let addr = if addr.is_some() {
                addr
            } else {
                c.addr
            };
            ctx.p2p_conns.insert(
                node_id.to_owned(),
                P2pConn { kind: c.kind, last_seen: now, addr },
            );
            no_effects()
        },
        None => {
            ctx.p2p_conns.insert(node_id.to_owned(), P2pConn { kind, last_seen: now, addr });
            one_effect(
                Effect::Emit(
                    CoreEvent::PeerConnected { node_id: node_id.to_owned(), transport: kind },
                ),
            )
        },
    }
}

/// The state once a live peer has been heard of at `now`.
pub open spec fn touched_live(net: NetView, node_id: Seq<char>, now: u64) -> NetView {
    if net.p2p_conns.contains_key(node_id) {
        NetView {
            p2p_conns: net.p2p_conns.insert(
                node_id,
                refreshed(net.p2p_conns[node_id], None, now),
            ),
            ..net
        }
    } else {
        net
    }
}

/// Refresh `last_seen` for an existing live peer (e.g. on pong/keepalive).
pub fn touch_live(ctx: &mut NetCtx, node_id: &str, now: u64)
    ensures
        final(ctx)@ == touched_live(old(ctx)@, node_id@, now),
{
    let known: Option<P2pConn> = match ctx.p2p_conns.get(node_id) {
        Some(c) => Some(*c),
        None => None,
    };
    if let Some(c) = known {
        ctx.p2p_conns.insert(
            node_id.to_owned(),
            P2pConn { kind: c.kind, last_seen: now, addr: c.addr },
        );
    }
}

/// The state and the effects once a peer's live link has been dropped.
pub open spec fn dropped_live(net: NetView, node_id: Seq<char>) -> (NetView, Seq<EffectView>) {
    (
        NetView { p2p_conns: net.p2p_conns.remove(node_id), ..net },
        if net.p2p_conns.contains_key(node_id) {
            seq![EffectView::Emit(EventView::PeerDisconnected { node_id })]
        } else {
            Seq::empty()
        },
    )
}

/// Drop a peer's live link. `PeerDisconnected` comes if it was present.
pub fn drop_live(ctx: &mut NetCtx, node_id: &str) -> (r: Vec<Effect>)
    ensures
        final(ctx)@ == dropped_live(old(ctx)@, node_id@).0,
        effects(r@) == dropped_live(old(ctx)@, node_id@).1,
{
    match ctx.p2p_conns.remove(node_id) {
        Some(_) => one_effect(
            Effect::Emit(CoreEvent::PeerDisconnected { node_id: node_id.to_owned() }),
        ),
        None => no_effects(),
    }
}

/// Snapshot of live peers and their transports, in the order of the registry.
pub fn live_peers(ctx: &NetCtx) -> (r: Vec<(String, TransportKind, Option<Endpoint>)>)
    ensures
        r@.len() == ctx@.p2p_conns.len(),
        ctx.p2p_conns.keys_spec().to_set() == ctx@.p2p_conns.dom(),
        forall|i: int|
            0 <= i < r@.len() ==> {
                let c = ctx@.p2p_conns[ctx.p2p_conns.keys_spec()[i]];
                &&& (#[trigger] r@[i]).0@ == ctx.p2p_conns.keys_spec()[i]
                &&& r@[i].1 == c.kind
                &&& r@[i].2 == c.addr
            },
{
    proof {
        use_type_invariant(&ctx.p2p_conns);
        ctx.p2p_conns.law_lists_the_map();
    }
    let mut out: Vec<(String, TransportKind, Option<Endpoint>)> = Vec::new();
    let n: usize = ctx.p2p_conns.len();
    for i in 0..n
        invariant
            n == ctx.p2p_conns.keys_spec().len(),
            out@.len() == i,
            ctx.p2p_conns.keys_spec().len() == ctx.p2p_conns.values_spec().len(),
            forall|j: int|
                0 <= j < ctx.p2p_conns.keys_spec().len()
                    ==> #[trigger] ctx.p2p_conns@[ctx.p2p_conns.keys_spec()[j]]
                    == ctx.p2p_conns.values_spec()[j],
            forall|j: int|
                0 <= j < i ==> {
                    let c = ctx@.p2p_conns[ctx.p2p_conns.keys_spec()[j]];
                    &&& (#[trigger] out@[j]).0@ == ctx.p2p_conns.keys_spec()[j]
                    &&& out@[j].1 == c.kind
                    &&& out@[j].2 == c.addr
                },
    {
        let c = *ctx.p2p_conns.value_at(i);
        out.push((ctx.p2p_conns.key_at(i).clone(), c.kind, c.addr));
    }
    out
}

/// Snapshot of live peers with their `last_seen`, for heartbeat staleness checks.
pub fn live_snapshot(ctx: &NetCtx) -> (r: Vec<(String, TransportKind, u64)>)
    ensures
        r@.len() == ctx@.p2p_conns.len(),
        ctx.p2p_conns.keys_spec().to_set() == ctx@.p2p_conns.dom(),
        forall|i: int|
            0 <= i < r@.len() ==> {
                let c = ctx@.p2p_conns[ctx.p2p_conns.keys_spec()[i]];
                &&& (#[trigger] r@[i]).0@ == ctx.p2p_conns.keys_spec()[i]
                &&& r@[i].1 == c.kind
                &&& r@[i].2 == c.last_seen
            },
{
    proof {
        use_type_invariant(&ctx.p2p_conns);
        ctx.p2p_conns.law_lists_the_map();
    }
    let mut out: Vec<(String, TransportKind, u64)> = Vec::new();
    let n: usize = ctx.p2p_conns.len();
    for i in 0..n
        invariant
            n == ctx.p2p_conns.keys_spec().len(),
            out@.len() == i,
            ctx.p2p_conns.keys_spec().len() == ctx.p2p_conns.values_spec().len(),
            forall|j: int|
                0 <= j < ctx.p2p_conns.keys_spec().len()
                    ==> #[trigger] ctx.p2p_conns@[ctx.p2p_conns.keys_spec()[j]]
                    == ctx.p2p_conns.values_spec()[j],
            forall|j: int|
                0 <= j < i ==> {
                    let c = ctx@.p2p_conns[ctx.p2p_conns.keys_spec()[j]];
                    &&& (#[trigger] out@[j]).0@ == ctx.p2p_conns.keys_spec()[j]
                    &&& out@[j].1 == c.kind
                    &&& out@[j].2 == c.last_seen
                },
    {
        let c = *ctx.p2p_conns.value_at(i);
        out.push((ctx.p2p_conns.key_at(i).clone(), c.kind, c.last_seen));
    }
    out
}

/// The UI's picture of who is connected is exact: it is told that a peer connected
/// exactly when that peer becomes live, and that it disconnected exactly when it
/// ceases to be. A live link keeps its transport for as long as it lives.
pub proof fn law_events_follow_links(
    net: NetView,
    node_id: Seq<char>,
    kind: TransportKind,
    addr: Option<Endpoint>,
    now: u64,
)
    ensures
        ({
            let up = marked_live(net, node_id, kind, addr, now);
            let was = net.p2p_conns.contains_key(node_id);
            &&& up.0.p2p_conns.dom() == net.p2p_conns.dom().insert(node_id)
            &&& up.1.len() == if was {
                0int
            } else {
                1
            }
            &&& up.0.p2p_conns[node_id].last_seen == now
            &&& up.0.p2p_conns[node_id].kind == if was {
                net.p2p_conns[node_id].kind
            } else {
                kind
            }
            &&& forall|other: Seq<char>|
                other != node_id && net.p2p_conns.contains_key(other)
                    ==> #[trigger] up.0.p2p_conns[other] == net.p2p_conns[other]
        }),
        ({
            let down = dropped_live(net, node_id);
            &&& down.0.p2p_conns.dom() == net.p2p_conns.dom().remove(node_id)
            &&& down.1.len() == if net.p2p_conns.contains_key(node_id) {
                1int
            } else {
                0
            }
        }),
        touched_live(net, node_id, now).p2p_conns.dom() == net.p2p_conns.dom(),
{
    assert(marked_live(net, node_id, kind, addr, now).0.p2p_conns.dom()
        =~= net.p2p_conns.dom().insert(node_id));
    assert(dropped_live(net, node_id).0.p2p_conns.dom() =~= net.p2p_conns.dom().remove(node_id));
    assert(touched_live(net, node_id, now).p2p_conns.dom() =~= net.p2p_conns.dom());
}

} // verus!
