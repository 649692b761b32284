//! P2P liveness: a tiny encrypted ping/pong that proves a direct datagram path
//! (UDP / hole-punched) is alive. Receiving either proves the sender reached us,
//! so we mark them live; the heartbeat keeps refreshing it and evicts links that go
//! stale. Like the other control messages, the sender's node_id travels in the JSON
//! body (`"from"`); the carrying envelope's `from` is only a display name.

use vstd::prelude::*;

use super::{ControlHandler, ControlMsg, MsgView};
use crate::capabilities::Capabilities;
use crate::engine::{NetCtx, NetView};
use crate::events::{add_effect, no_effects, Effect, EffectView};
use crate::messages::{bare_message, bare_text};
use crate::text::{same_text, texts};
use crate::transport::send::{control_to, send_control_to};
use crate::transport::{mark_live, marked_live, TransportKind};

verus! {

pub struct P2pPingHandler;

impl ControlHandler for P2pPingHandler {
    open spec fn kinds_spec(&self) -> Seq<Seq<char>> {
        seq!["p2p_ping"@, "p2p_pong"@]
    }

    /// Either direction proves a live datagram path; a ping is also answered.
    open spec fn handled(&self, net: NetView, caps: Capabilities, now: u64, msg: MsgView) -> (
        NetView,
        Seq<EffectView>,
    ) {
        let from = msg.str("from"@);
        if from.len() == 0 {
            (net, Seq::empty())
        } else {
            let (live, events) = marked_live(net, from, TransportKind::Udp, None, now);
            if msg.kind() == "p2p_ping"@ {
                let pong = bare_text("p2p_pong"@, net.identity.node_id);
                (live, events.push(EffectView::Send(control_to(net, from, pong))))
            } else {
                (live, events)
            }
        }
    }

    fn kinds(&self) -> (r: Vec<String>) {
        let mut r: Vec<String> = Vec::new();
        r.push("p2p_ping".to_owned());
        r.push("p2p_pong".to_owned());
        assert(texts(r@) =~= self.kinds_spec());
        r
    }

    fn handle(&self, ctx: &mut NetCtx, caps: Capabilities, now: u64, msg: &ControlMsg) -> (r: Vec<
        Effect,
    >) {
        let from = msg.str("from");
        if from.as_str().unicode_len() == 0 {
            return no_effects();
        }
        let mut out = mark_live(ctx, from.as_str(), TransportKind::Udp, None, now);
        if same_text(msg.kind(), "p2p_ping") {
            let pong = bare_message("p2p_pong", ctx.identity.node_id.as_str());
            add_effect(
                &mut out,
                Effect::Send(send_control_to(ctx, from.as_str(), pong.as_str())),
            );
        }
        out
    }
}

} // verus!
