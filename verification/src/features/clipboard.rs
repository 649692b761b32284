//! Clipboard sharing: active push (`clipboard`) plus passive pull
//! (`clipboard_request` / `clipboard_response`).

use vstd::prelude::*;

use super::{ControlHandler, ControlMsg, MsgView};
use crate::capabilities::Capabilities;
use crate::engine::{NetCtx, NetView};
use crate::events::{
    add_effect, effects, no_effects, one_effect, CoreEvent, Effect, EffectView, EventView,
    Outgoing,
};
use crate::json::{json_fields, reads_back};
use crate::messages::{clipboard_fields, clipboard_message, clipboard_text};
use crate::text::{same_text, texts};
use crate::transport::send::{control_to, send_control_to};

verus! {

pub struct ClipboardHandler;

/// An unsolicited push from a peer in active mode: only applied if this device too
/// has auto-sync enabled and a clipboard.
pub open spec fn pushed(net: NetView, caps: Capabilities, msg: MsgView) -> (
    NetView,
    Seq<EffectView>,
) {
    if net.clip_active && caps.clipboard {
        (
            NetView { clip_last: msg.str("content"@), ..net },
            seq![
                EffectView::SetClipboard(msg.str("content"@)),
                EffectView::Emit(
                    EventView::Clipboard {
                        from: msg.from,
                        ip: msg.ip,
                        protocol: msg.protocol,
                        action: "synced"@,
                    },
                ),
            ],
        )
    } else {
        (net, Seq::empty())
    }
}

/// A peer is pulling our clipboard: it is read and sent back.
pub open spec fn requested(net: NetView, msg: MsgView) -> (NetView, Seq<EffectView>) {
    if msg.str("from"@).len() > 0 {
        (net, seq![EffectView::ReadClipboard { requester: msg.str("from"@) }])
    } else {
        (net, Seq::empty())
    }
}

/// The reply to a pull we initiated: handed to whoever waits for it.
pub open spec fn responded(net: NetView, msg: MsgView) -> (NetView, Seq<EffectView>) {
    let from = msg.str("from"@);
    if net.clip_pending.contains_key(from) {
        (
            NetView { clip_pending: net.clip_pending.remove(from), ..net },
            seq![
                EffectView::AnswerPull {
                    ticket: net.clip_pending[from],
                    content: msg.str("content"@),
                },
            ],
        )
    } else {
        (net, Seq::empty())
    }
}

impl ControlHandler for ClipboardHandler {
    open spec fn kinds_spec(&self) -> Seq<Seq<char>> {
        seq!["clipboard"@, "clipboard_request"@, "clipboard_response"@]
    }

    open spec fn handled(&self, net: NetView, caps: Capabilities, now: u64, msg: MsgView) -> (
        NetView,
        Seq<EffectView>,
    ) {
        if msg.kind() == "clipboard"@ {
            pushed(net, caps, msg)
        } else if msg.kind() == "clipboard_request"@ {
            requested(net, msg)
        } else if msg.kind() == "clipboard_response"@ {
            responded(net, msg)
        } else {
            (net, Seq::empty())
        }
    }

    fn kinds(&self) -> (r: Vec<String>) {
        let mut r: Vec<String> = Vec::new();
        r.push("clipboard".to_owned());
        r.push("clipboard_request".to_owned());
        r.push("clipboard_response".to_owned());
        assert(texts(r@) =~= self.kinds_spec());
        r
    }

    fn handle(&self, ctx: &mut NetCtx, caps: Capabilities, now: u64, msg: &ControlMsg) -> (r: Vec<
        Effect,
    >) {
        if same_text(msg.kind(), "clipboard") {
            if ctx.clip_active && caps.clipboard {
                let content = msg.str("content");
                ctx.clip_last = content.clone();
                let mut out = one_effect(Effect::SetClipboard(content));
                add_effect(
                    &mut out,
                    Effect::Emit(
                        CoreEvent::Clipboard {
                            from: msg.from.to_owned(),
                            ip: msg.ip.to_owned(),
                            protocol: msg.protocol.to_owned(),
                            action: "synced".to_owned(),
                        },
                    ),
                );
                assert(effects(out@) =~= self.handled(old(ctx)@, caps, now, msg@).1);
                return out;
            }
        } else if same_text(msg.kind(), "clipboard_request") {
            let requester = msg.str("from");
            if requester.as_str().unicode_len() > 0 {
                return one_effect(Effect::ReadClipboard { requester });
            }
        } else if same_text(msg.kind(), "clipboard_response") {
            let from = msg.str("from");
            match ctx.clip_pending.remove(from.as_str()) {
                Some(ticket) => {
                    return one_effect(
                        Effect::AnswerPull { ticket, content: msg.str("content") },
                    );
                },
                None => {
                    assert(old(ctx)@.clip_pending.remove(from@) =~= old(ctx)@.clip_pending);
                },
            }
        }
        no_effects()
    }
}

/// The answer to a peer that pulls our clipboard, with what was read from it; an
/// empty text where there is none.
pub fn clipboard_reply(ctx: &NetCtx, requester: &str, current: Option<String>) -> (r: Outgoing)
    ensures
        r@ == control_to(
            ctx@,
            requester@,
            clipboard_text(
                "clipboard_response"@,
                ctx@.identity.node_id,
                match current {
                    Some(s) => s@,
                    None => Seq::empty(),
                },
            ),
        ),
        reads_back(
            json_fields(r@.text),
            clipboard_fields(
                "clipboard_response"@,
                ctx@.identity.node_id,
                match current {
                    Some(s) => s@,
                    None => Seq::empty(),
                },
            ),
        ),
{
    let content = match current {
        Some(s) => s,
        None => String::new(),
    };
    let text = clipboard_message(
        "clipboard_response",
        ctx.identity.node_id.as_str(),
        content.as_str(),
    );
    send_control_to(ctx, requester, text.as_str())
}

} // verus!
