//! WebRTC data-channel rung: the final fallback when even UDP punch fails. On
//! channel open the peer registers in `ws_conns`, so that the rest of the engine
//! treats the link exactly like a WebSocket. The encrypted `msg` frames ride the
//! channel verbatim; DTLS is just transport security underneath.

use vstd::prelude::*;

use super::punch::link_ended;
use super::ws::{holds_slot, owns_slot, release_slot};
use super::{drop_live, mark_live, marked_live, TransportKind};
use crate::engine::{NetCtx, NetView};
use crate::events::{effects, no_effects, Effect, EffectView};

verus! {

/// The longest time to wait for a datagram, so that outgoing frames and evictions are
/// revisited promptly.
pub const MAX_WAIT_MS: u64 = 250;

/// How long to wait for a datagram when the connection wants to be woken at `wake`:
/// at least a millisecond, at most `MAX_WAIT_MS`.
pub open spec fn wait_spec(wake: u64, now: u64) -> u64 {
    if wake <= now {
        1
    } else if wake - now < MAX_WAIT_MS {
        (wake - now) as u64
    } else {
        MAX_WAIT_MS
    }
}

/// How long to wait for a datagram when the connection wants to be woken at `wake`
/// (both in milliseconds).
pub fn read_wait(wake: u64, now: u64) -> (r: u64)
    ensures
        r == wait_spec(wake, now),
        1 <= r <= MAX_WAIT_MS,
{
    if wake <= now {
        1
    } else if wake - now < MAX_WAIT_MS {
        wake - now
    } else {
        MAX_WAIT_MS
    }
}

/// One WebRTC connection: its peer, its id, and whether its channel has opened.
pub struct RtcLink {
    pub node_id: String,
    pub conn_id: u64,
    pub registered: bool,
}

/// The state and the effects once a data channel has opened for the first time. It
/// takes the peer's slot, whoever had it.
pub open spec fn channel_opened(net: NetView, node_id: Seq<char>, conn: u64, now: u64) -> (
    NetView,
    Seq<EffectView>,
) {
    marked_live(
        NetView { ws_conns: net.ws_conns.insert(node_id, conn), ..net },
        node_id,
        TransportKind::WebRtc,
        None,
        now,
    )
}

/// What a connection reports.
pub enum RtcEvent {
    /// A data channel opened.
    Opened,
    /// A frame came in.
    Data(Vec<u8>),
    /// The data channel closed.
    Closed,
    /// Something of no concern.
    Other,
    /// The connection failed.
    Failed,
}

/// What to do about it.
pub enum RtcReply {
    /// Perform these effects and go on.
    Perform(Vec<Effect>),
    /// Deliver the frame (as from no address, over "UDP") and go on.
    Deliver(Vec<u8>),
    /// Disconnect, and go on until the connection is down.
    Disconnect,
    /// Go on.
    Nothing,
    /// Stop at once, and clean up.
    Stop,
}

impl RtcLink {
    /// The connection reported something. The first open channel registers the peer;
    /// frames are delivered; a closed channel ends the connection.
    pub fn on_event(&mut self, ctx: &mut NetCtx, event: RtcEvent, now: u64) -> (r: RtcReply)
        ensures
            final(self).node_id == old(self).node_id,
            final(self).conn_id == old(self).conn_id,
            final(self).registered == (old(self).registered || event is Opened),
            final(ctx)@ == if event is Opened && !old(self).registered {
                channel_opened(old(ctx)@, old(self).node_id@, old(self).conn_id, now).0
            } else {
                old(ctx)@
            },
            match event {
                RtcEvent::Opened => r matches RtcReply::Perform(out) && effects(out@)
                    == if old(self).registered {
                    Seq::<EffectView>::empty()
                } else {
                    channel_opened(old(ctx)@, old(self).node_id@, old(self).conn_id, now).1
                },
                RtcEvent::Data(bytes) => r matches RtcReply::Deliver(b) && b@ == bytes@,
                RtcEvent::Closed => r is Disconnect,
                RtcEvent::Other => r is Nothing,
                RtcEvent::Failed => r is Stop,
            },
    {
        match event {
            RtcEvent::Opened => RtcReply::Perform(self.on_channel_open(ctx, now)),
            RtcEvent::Data(bytes) => RtcReply::Deliver(bytes),
            RtcEvent::Closed => RtcReply::Disconnect,
            RtcEvent::Other => RtcReply::Nothing,
            RtcEvent::Failed => RtcReply::Stop,
        }
    }

    pub fn new(node_id: String, conn_id: u64) -> (r: RtcLink)
        ensures
            r == (RtcLink { node_id, conn_id, registered: false }),
    {
        RtcLink { node_id, conn_id, registered: false }
    }

    /// A data channel opened: register the peer, once.
    pub fn on_channel_open(&mut self, ctx: &mut NetCtx, now: u64) -> (r: Vec<Effect>)
        ensures
            *final(self) == (RtcLink { registered: true, ..*old(self) }),
            old(self).registered ==> final(ctx)@ == old(ctx)@ && effects(r@) == Seq::<
                EffectView,
            >::empty(),
            !old(self).registered ==> final(ctx)@ == channel_opened(
                old(ctx)@,
                old(self).node_id@,
                old(self).conn_id,
                now,
            ).0 && effects(r@) == channel_opened(
                old(ctx)@,
                old(self).node_id@,
                old(self).conn_id,
                now,
            ).1,
    {
        if self.registered {
            return no_effects();
        }
        self.registered = true;
        ctx.ws_conns.insert(self.node_id.clone(), self.conn_id);
        mark_live(ctx, self.node_id.as_str(), TransportKind::WebRtc, None, now)
    }

    /// Whether to go on: not yet registered, or still the peer's link and still live.
    pub fn still_up(&self, ctx: &NetCtx) -> (r: bool)
        ensures
            r == (!self.registered || (owns_slot(ctx@, self.node_id@, self.conn_id)
                && ctx@.p2p_conns.contains_key(self.node_id@))),
    {
        if !self.registered {
            return true;
        }
        holds_slot(ctx, self.node_id.as_str(), self.conn_id) && ctx.p2p_conns.contains_key(
            self.node_id.as_str(),
        )
    }

    /// The connection is done. One that never registered leaves everything alone;
    /// else it gives up its slot if it still has it, and the peer is dropped.
    pub fn cleanup(&self, ctx: &mut NetCtx) -> (r: Vec<Effect>)
        ensures
            !self.registered ==> final(ctx)@ == old(ctx)@ && effects(r@) == Seq::<
                EffectView,
            >::empty(),
            self.registered ==> final(ctx)@ == link_ended(
                old(ctx)@,
                self.node_id@,
                self.conn_id,
            ).0 && effects(r@) == link_ended(old(ctx)@, self.node_id@, self.conn_id).1,
    {
        if !self.registered {
            return no_effects();
        }
        let _ = release_slot(ctx, self.node_id.as_str(), self.conn_id);
        drop_live(ctx, self.node_id.as_str())
    }
}

} // verus!
