//! Call-notification sharing: forward an incoming/missed/ended call event.

use vstd::prelude::*;

use super::{ControlHandler, ControlMsg, MsgView};
use crate::capabilities::Capabilities;
use crate::engine::{NetCtx, NetView};
use crate::events::{one_effect, CoreEvent, Effect, EffectView, EventView};
use crate::text::texts;

verus! {

pub struct CallNotificationHandler;

impl ControlHandler for CallNotificationHandler {
    open spec fn kinds_spec(&self) -> Seq<Seq<char>> {
        seq!["call_notification"@]
    }

    open spec fn handled(&self, net: NetView, caps: Capabilities, now: u64, msg: MsgView) -> (
        NetView,
        Seq<EffectView>,
    ) {
        (
            net,
            seq![
                EffectView::Emit(
                    EventView::CallNotification {
                        from: msg.str("from"@),
                        caller: msg.str("caller"@),
                        number: msg.opt("number"@),
                        state: msg.str("state"@),
                    },
                ),
            ],
        )
    }

    fn kinds(&self) -> (r: Vec<String>) {
        let mut r: Vec<String> = Vec::new();
        r.push("call_notification".to_owned());
        assert(texts(r@) =~= self.kinds_spec());
        r
    }

    fn handle(&self, ctx: &mut NetCtx, caps: Capabilities, now: u64, msg: &ControlMsg) -> (r: Vec<
        Effect,
    >) {
        one_effect(
            Effect::Emit(
                CoreEvent::CallNotification {
                    from: msg.str("from"),
                    caller: msg.str("caller"),
                    number: msg.opt("number"),
                    state: msg.str("state"),
                },
            ),
        )
    }
}

} // verus!
