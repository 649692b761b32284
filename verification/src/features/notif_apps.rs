//! App-notification pub/sub. A consumer asks a producer for its shareable app
//! list, then subscribes to specific packages; the subscription is stored on the
//! producer (in `NetCtx::subs`). When the producer captures a notification from
//! a subscribed app it forwards it as a normal `notification` (see
//! `Engine::share_app_notification`).
//!
//!   apps_request   { from }                          consumer -> producer
//!   apps_list      { from, apps[], subscribed[] }    producer -> consumer
//!   subscribe_apps { from, apps[] }                  consumer -> producer

use vstd::prelude::*;

use super::{ControlHandler, ControlMsg, MsgView};
use crate::capabilities::Capabilities;
use crate::engine::{Apps, NetCtx, NetView};
use crate::events::{no_effects, one_effect, CoreEvent, Effect, EffectView, EventView};
use crate::messages::{apps_list_message, apps_list_text};
use crate::text::{clone_texts, same_text, texts};
use crate::transport::send::{control_to, send_control_to};

verus! {

pub struct NotifAppsHandler;

/// The packages that a peer is subscribed to.
pub open spec fn subscribed(net: NetView, node_id: Seq<char>) -> Seq<Seq<char>> {
    if net.subs.contains_key(node_id) {
        net.subs[node_id]
    } else {
        Seq::empty()
    }
}

impl ControlHandler for NotifAppsHandler {
    open spec fn kinds_spec(&self) -> Seq<Seq<char>> {
        seq!["apps_request"@, "subscribe_apps"@, "apps_list"@]
    }

    /// As a producer, answer with the app list and the requester's subscription, or
    /// store a peer's subscription (the full enabled set). As a consumer, surface
    /// the producer's app list to the UI.
    open spec fn handled(&self, net: NetView, caps: Capabilities, now: u64, msg: MsgView) -> (
        NetView,
        Seq<EffectView>,
    ) {
        let from = msg.str("from"@);
        if msg.kind() == "apps_request"@ {
            if from.len() == 0 {
                (net, Seq::empty())
            } else {
                let reply = apps_list_text(
                    net.identity.node_id,
                    net.installed_apps,
                    subscribed(net, from),
                );
                (net, seq![EffectView::Send(control_to(net, from, reply))])
            }
        } else if msg.kind() == "subscribe_apps"@ {
            if from.len() == 0 {
                (net, Seq::empty())
            } else {
                (
                    NetView { subs: net.subs.insert(from, msg.strings("apps"@)), ..net },
                    Seq::empty(),
                )
            }
        } else if msg.kind() == "apps_list"@ {
            (
                net,
                seq![
                    EffectView::Emit(
                        EventView::AppsList {
                            from,
                            apps: msg.json("apps"@),
                            subscribed: msg.json("subscribed"@),
                        },
                    ),
                ],
            )
        } else {
            (net, Seq::empty())
        }
    }

    fn kinds(&self) -> (r: Vec<String>) {
        let mut r: Vec<String> = Vec::new();
        r.push("apps_request".to_owned());
        r.push("subscribe_apps".to_owned());
        r.push("apps_list".to_owned());
        assert(texts(r@) =~= self.kinds_spec());
        r
    }

    fn handle(&self, ctx: &mut NetCtx, caps: Capabilities, now: u64, msg: &ControlMsg) -> (r: Vec<
        Effect,
    >) {
        let from = msg.str("from");
        if same_text(msg.kind(), "apps_request") {
            if from.as_str().unicode_len() > 0 {
                let packages = match ctx.subs.get(from.as_str()) {
                    Some(apps) => clone_texts(&apps.packages),
                    None => Vec::new(),
                };
                assert(texts(packages@) =~= subscribed(ctx@, from@));
                let reply = apps_list_message(
                    ctx.identity.node_id.as_str(),
                    ctx.installed_apps.as_str(),
                    &packages,
                );
                return one_effect(
                    Effect::Send(send_control_to(ctx, from.as_str(), reply.as_str())),
                );
            }
        } else if same_text(msg.kind(), "subscribe_apps") {
            if from.as_str().unicode_len() > 0 {
                ctx.subs.insert(from, Apps { packages: msg.strings("apps") });
            }
        } else if same_text(msg.kind(), "apps_list") {
            return one_effect(
                Effect::Emit(
                    CoreEvent::AppsList {
                        from,
                        apps: msg.json("apps"),
                        subscribed: msg.json("subscribed"),
                    },
                ),
            );
        }
        no_effects()
    }
}

} // verus!
