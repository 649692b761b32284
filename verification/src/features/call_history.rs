//! Call-history sync: receive a peer's call-log entries (opaque JSON payload).

use vstd::prelude::*;

use super::{ControlHandler, ControlMsg, MsgView};
use crate::capabilities::Capabilities;
use crate::engine::{NetCtx, NetView};
use crate::events::{one_effect, CoreEvent, Effect, EffectView, EventView};
use crate::text::texts;

verus! {

pub struct CallHistoryHandler;

impl ControlHandler for CallHistoryHandler {
    open spec fn kinds_spec(&self) -> Seq<Seq<char>> {
        seq!["call_history"@]
    }

    open spec fn handled(&self, net: NetView, caps: Capabilities, now: u64, msg: MsgView) -> (
        NetView,
        Seq<EffectView>,
    ) {
        (
            net,
            seq![
                EffectView::Emit(
                    EventView::CallHistory {
                        from: msg.str("from"@),
                        entries: msg.json("entries"@),
                    },
                ),
            ],
        )
    }

    fn kinds(&self) -> (r: Vec<String>) {
        let mut r: Vec<String> = Vec::new();
        r.push("call_history".to_owned());
        assert(texts(r@) =~= self.kinds_spec());
        r
    }

    fn handle(&self, ctx: &mut NetCtx, caps: Capabilities, now: u64, msg: &ControlMsg) -> (r: Vec<
        Effect,
    >) {
        one_effect(
            Effect::Emit(
                CoreEvent::CallHistory { from: msg.str("from"), entries: msg.json("entries") },
            ),
        )
    }
}

} // verus!
