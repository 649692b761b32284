//! Notification sharing: mirror a peer's OS notification locally.

use vstd::prelude::*;

use super::{ControlHandler, ControlMsg, MsgView};
use crate::capabilities::Capabilities;
use crate::engine::{NetCtx, NetView};
use crate::events::{
    add_effect, no_effects, CoreEvent, Effect, EffectView, EventView,
};
use crate::text::texts;

verus! {

pub struct NotificationHandler;

impl ControlHandler for NotificationHandler {
    open spec fn kinds_spec(&self) -> Seq<Seq<char>> {
        seq!["notification"@]
    }

    /// The notification is posted where the host can, and always told to the UI.
    open spec fn handled(&self, net: NetView, caps: Capabilities, now: u64, msg: MsgView) -> (
        NetView,
        Seq<EffectView>,
    ) {
        let posted = if caps.notifier {
            seq![EffectView::Notify { title: msg.str("title"@), body: msg.str("body"@) }]
        } else {
            Seq::empty()
        };
        (
            net,
            posted.push(
                EffectView::Emit(
                    EventView::Notification {
                        from: msg.str("from"@),
                        title: msg.str("title"@),
                        body: msg.str("body"@),
                        app: msg.opt("app"@),
                    },
                ),
            ),
        )
    }

    fn kinds(&self) -> (r: Vec<String>) {
        let mut r: Vec<String> = Vec::new();
        r.push("notification".to_owned());
        assert(texts(r@) =~= self.kinds_spec());
        r
    }

    fn handle(&self, ctx: &mut NetCtx, caps: Capabilities, now: u64, msg: &ControlMsg) -> (r: Vec<
        Effect,
    >) {
        let mut out = no_effects();
        if caps.notifier {
            add_effect(
                &mut out,
                Effect::Notify { title: msg.str("title"), body: msg.str("body") },
            );
        }
        add_effect(
            &mut out,
            Effect::Emit(
                CoreEvent::Notification {
                    from: msg.str("from"),
                    title: msg.str("title"),
                    body: msg.str("body"),
                    app: msg.opt("app"),
                },
            ),
        );
        assert(crate::events::effects(out@) =~= self.handled(ctx@, caps, now, msg@).1);
        out
    }
}

} // verus!
