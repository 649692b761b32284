//! What each feature does with a control message that comes in.

use vstd::prelude::*;

use crate::capabilities::Capabilities;
use crate::engine::{NetCtx, NetView};
use crate::events::{effects, Effect, EffectView, EventView};
use crate::features::{only_texts, ControlRegistry, Feature};
use crate::json::{field, items_field, json_fields, json_text, text_field, ItemView, JsonFieldView};
use crate::laws::messages::{feature_for, json_or_else, law_standard_features};
use crate::laws::sending::is_control_to;
use crate::transport::{P2pConn, TransportKind};

verus! {

/// The string under a key, or the empty text.
pub open spec fn said(fields: Seq<JsonFieldView>, key: Seq<char>) -> Seq<char> {
    match text_field(fields, key) {
        Some(s) => s,
        None => Seq::empty(),
    }
}

/// The value under a key as JSON text, or `null`.
pub open spec fn said_json(fields: Seq<JsonFieldView>, key: Seq<char>) -> Seq<char> {
    match field(fields, key) {
        Some(f) => f.value.raw,
        None => "null"@,
    }
}

/// The strings of the array under a key.
pub open spec fn said_list(fields: Seq<JsonFieldView>, key: Seq<char>) -> Seq<Seq<char>> {
    match items_field(fields, key) {
        Some(items) => only_texts(items),
        None => Seq::empty(),
    }
}

/// A notification is posted where the device can, and shown with all that was said of it.
pub proof fn law_notification_comes_in(
    control: ControlRegistry<Feature>,
    ctx: &mut NetCtx,
    caps: Capabilities,
    now: u64,
    from: &str,
    ip: &str,
    protocol: &str,
    text: &str,
    fields: Seq<JsonFieldView>,
    r: Option<Vec<Effect>>,
)
    requires
        call_ensures(ControlRegistry::with_defaults, (), control),
        call_ensures(
            ControlRegistry::<Feature>::dispatch,
            (&control, ctx, caps, now, from, ip, protocol, text),
            r,
        ),
        json_fields(text@) == Some(fields),
        text_field(fields, "type"@) == Some("notification"@),
    ensures
        r is Some,
        final(ctx)@ == old(ctx)@,
        ({
            let shown = EffectView::Emit(
                EventView::Notification {
                    from: said(fields, "from"@),
                    title: said(fields, "title"@),
                    body: said(fields, "body"@),
                    app: text_field(fields, "app"@),
                },
            );
            let posted = EffectView::Notify {
                title: said(fields, "title"@),
                body: said(fields, "body"@),
            };
            effects(r->0@) == if caps.notifier {
                seq![posted, shown]
            } else {
                seq![shown]
            }
        }),
{
    law_standard_features(control, "notification"@);
    lemma_kinds();
    let shown = EffectView::Emit(
        EventView::Notification {
            from: said(fields, "from"@),
            title: said(fields, "title"@),
            body: said(fields, "body"@),
            app: text_field(fields, "app"@),
        },
    );
    if caps.notifier {
        let posted = EffectView::Notify {
            title: said(fields, "title"@),
            body: said(fields, "body"@),
        };
        assert(effects(r->0@) =~= seq![posted, shown]);
    } else {
        assert(effects(r->0@) =~= seq![shown]);
    }
}

/// A call is shown with all that was said of it.
pub proof fn law_call_comes_in(
    control: ControlRegistry<Feature>,
    ctx: &mut NetCtx,
    caps: Capabilities,
    now: u64,
    from: &str,
    ip: &str,
    protocol: &str,
    text: &str,
    fields: Seq<JsonFieldView>,
    r: Option<Vec<Effect>>,
)
    requires
        call_ensures(ControlRegistry::with_defaults, (), control),
        call_ensures(
            ControlRegistry::<Feature>::dispatch,
            (&control, ctx, caps, now, from, ip, protocol, text),
            r,
        ),
        json_fields(text@) == Some(fields),
        text_field(fields, "type"@) == Some("call_notification"@),
    ensures
        r is Some,
        final(ctx)@ == old(ctx)@,
        effects(r->0@) == seq![
            EffectView::Emit(
                EventView::CallNotification {
                    from: said(fields, "from"@),
                    caller: said(fields, "caller"@),
                    number: text_field(fields, "number"@),
                    state: said(fields, "state"@),
                },
            ),
        ],
{
    law_standard_features(control, "call_notification"@);
    lemma_kinds();
}

/// Call history is shown as it came.
pub proof fn law_history_comes_in(
    control: ControlRegistry<Feature>,
    ctx: &mut NetCtx,
    caps: Capabilities,
    now: u64,
    from: &str,
    ip: &str,
    protocol: &str,
    text: &str,
    fields: Seq<JsonFieldView>,
    r: Option<Vec<Effect>>,
)
    requires
        call_ensures(ControlRegistry::with_defaults, (), control),
        call_ensures(
            ControlRegistry::<Feature>::dispatch,
            (&control, ctx, caps, now, from, ip, protocol, text),
            r,
        ),
        json_fields(text@) == Some(fields),
        text_field(fields, "type"@) == Some("call_history"@),
    ensures
        r is Some,
        final(ctx)@ == old(ctx)@,
        effects(r->0@) == seq![
            EffectView::Emit(
                EventView::CallHistory {
                    from: said(fields, "from"@),
                    entries: said_json(fields, "entries"@),
                },
            ),
        ],
{
    law_standard_features(control, "call_history"@);
    lemma_kinds();
}

/// A clipboard that is pushed is put on ours where auto-sync is on and there is one, counts as
/// seen, and the UI is told who sent it; elsewhere nothing happens.
pub proof fn law_clipboard_push_comes_in(
    control: ControlRegistry<Feature>,
    ctx: &mut NetCtx,
    caps: Capabilities,
    now: u64,
    from: &str,
    ip: &str,
    protocol: &str,
    text: &str,
    fields: Seq<JsonFieldView>,
    r: Option<Vec<Effect>>,
)
    requires
        call_ensures(ControlRegistry::with_defaults, (), control),
        call_ensures(
            ControlRegistry::<Feature>::dispatch,
            (&control, ctx, caps, now, from, ip, protocol, text),
            r,
        ),
        json_fields(text@) == Some(fields),
        text_field(fields, "type"@) == Some("clipboard"@),
    ensures
        r is Some,
        old(ctx)@.clip_active && caps.clipboard ==> {
            &&& final(ctx)@ == (NetView { clip_last: said(fields, "content"@), ..old(ctx)@ })
            &&& effects(r->0@) == seq![
                EffectView::SetClipboard(said(fields, "content"@)),
                EffectView::Emit(
                    EventView::Clipboard {
                        from: from@,
                        ip: ip@,
                        protocol: protocol@,
                        action: "synced"@,
                    },
                ),
            ]
        },
        !(old(ctx)@.clip_active && caps.clipboard) ==> final(ctx)@ == old(ctx)@ && effects(
            r->0@,
        ).len() == 0,
{
    law_standard_features(control, "clipboard"@);
    lemma_kinds();
}

/// A request for our clipboard has it read for the one who asks.
pub proof fn law_clipboard_request_comes_in(
    control: ControlRegistry<Feature>,
    ctx: &mut NetCtx,
    caps: Capabilities,
    now: u64,
    from: &str,
    ip: &str,
    protocol: &str,
    text: &str,
    fields: Seq<JsonFieldView>,
    r: Option<Vec<Effect>>,
)
    requires
        call_ensures(ControlRegistry::with_defaults, (), control),
        call_ensures(
            ControlRegistry::<Feature>::dispatch,
            (&control, ctx, caps, now, from, ip, protocol, text),
            r,
        ),
        json_fields(text@) == Some(fields),
        text_field(fields, "type"@) == Some("clipboard_request"@),
    ensures
        r is Some,
        final(ctx)@ == old(ctx)@,
        said(fields, "from"@).len() > 0 ==> effects(r->0@) == seq![
            EffectView::ReadClipboard { requester: said(fields, "from"@) },
        ],
        said(fields, "from"@).len() == 0 ==> effects(r->0@).len() == 0,
{
    law_standard_features(control, "clipboard_request"@);
    lemma_kinds();
}

/// An answer with a clipboard goes to the pull that waits for this sender, which then waits no
/// more; one that nobody waits for does nothing.
pub proof fn law_clipboard_response_comes_in(
    control: ControlRegistry<Feature>,
    ctx: &mut NetCtx,
    caps: Capabilities,
    now: u64,
    from: &str,
    ip: &str,
    protocol: &str,
    text: &str,
    fields: Seq<JsonFieldView>,
    r: Option<Vec<Effect>>,
)
    requires
        call_ensures(ControlRegistry::with_defaults, (), control),
        call_ensures(
            ControlRegistry::<Feature>::dispatch,
            (&control, ctx, caps, now, from, ip, protocol, text),
            r,
        ),
        json_fields(text@) == Some(fields),
        text_field(fields, "type"@) == Some("clipboard_response"@),
    ensures
        r is Some,
        final(ctx)@ == (NetView {
            clip_pending: old(ctx)@.clip_pending.remove(said(fields, "from"@)),
            ..old(ctx)@
        }),
        old(ctx)@.clip_pending.contains_key(said(fields, "from"@)) ==> effects(r->0@) == seq![
            EffectView::AnswerPull {
                ticket: old(ctx)@.clip_pending[said(fields, "from"@)],
                content: said(fields, "content"@),
            },
        ],
        !old(ctx)@.clip_pending.contains_key(said(fields, "from"@)) ==> effects(r->0@).len() == 0,
{
    law_standard_features(control, "clipboard_response"@);
    lemma_kinds();
    if !old(ctx)@.clip_pending.contains_key(said(fields, "from"@)) {
        assert(old(ctx)@.clip_pending.remove(said(fields, "from"@)) =~= old(ctx)@.clip_pending);
    }
}

/// A request for our apps is answered with the list that the host set and with what the one
/// who asks is subscribed to.
pub proof fn law_apps_request_comes_in(
    control: ControlRegistry<Feature>,
    ctx: &mut NetCtx,
    caps: Capabilities,
    now: u64,
    from: &str,
    ip: &str,
    protocol: &str,
    text: &str,
    fields: Seq<JsonFieldView>,
    r: Option<Vec<Effect>>,
)
    requires
        call_ensures(ControlRegistry::with_defaults, (), control),
        call_ensures(
            ControlRegistry::<Feature>::dispatch,
            (&control, ctx, caps, now, from, ip, protocol, text),
            r,
        ),
        json_fields(text@) == Some(fields),
        text_field(fields, "type"@) == Some("apps_request"@),
    ensures
        r is Some,
        final(ctx)@ == old(ctx)@,
        said(fields, "from"@).len() == 0 ==> effects(r->0@).len() == 0,
        said(fields, "from"@).len() > 0 ==> {
            let who = said(fields, "from"@);
            &&& effects(r->0@).len() == 1
            &&& effects(r->0@)[0] matches EffectView::Send(o)
            &&& is_control_to(
                old(ctx)@,
                o,
                who,
                json_text(
                    seq![
                        ("type"@, ItemView::Text("apps_list"@)),
                        ("from"@, ItemView::Text(old(ctx)@.identity.node_id)),
                        (
                            "apps"@,
                            json_or_else(
                                old(ctx)@.installed_apps,
                                ItemView::Texts(Seq::empty()),
                            ),
                        ),
                        (
                            "subscribed"@,
                            ItemView::Texts(
                                if old(ctx)@.subs.contains_key(who) {
                                    old(ctx)@.subs[who]
                                } else {
                                    Seq::empty()
                                },
                            ),
                        ),
                    ],
                ),
            )
        },
{
    law_standard_features(control, "apps_request"@);
    lemma_kinds();
    let who = said(fields, "from"@);
    let subscribed = if old(ctx)@.subs.contains_key(who) {
        old(ctx)@.subs[who]
    } else {
        Seq::empty()
    };
    assert(crate::messages::apps_list_fields(
        old(ctx)@.identity.node_id,
        old(ctx)@.installed_apps,
        subscribed,
    ) =~= seq![
        ("type"@, ItemView::Text("apps_list"@)),
        ("from"@, ItemView::Text(old(ctx)@.identity.node_id)),
        ("apps"@, json_or_else(old(ctx)@.installed_apps, ItemView::Texts(Seq::empty()))),
        (
            "subscribed"@,
            ItemView::Texts(
                if old(ctx)@.subs.contains_key(who) {
                    old(ctx)@.subs[who]
                } else {
                    Seq::empty()
                },
            ),
        ),
    ]);
}

/// A subscription replaces what the sender was subscribed to.
pub proof fn law_subscription_comes_in(
    control: ControlRegistry<Feature>,
    ctx: &mut NetCtx,
    caps: Capabilities,
    now: u64,
    from: &str,
    ip: &str,
    protocol: &str,
    text: &str,
    fields: Seq<JsonFieldView>,
    r: Option<Vec<Effect>>,
)
    requires
        call_ensures(ControlRegistry::with_defaults, (), control),
        call_ensures(
            ControlRegistry::<Feature>::dispatch,
            (&control, ctx, caps, now, from, ip, protocol, text),
            r,
        ),
        json_fields(text@) == Some(fields),
        text_field(fields, "type"@) == Some("subscribe_apps"@),
    ensures
        r is Some,
        effects(r->0@).len() == 0,
        said(fields, "from"@).len() == 0 ==> final(ctx)@ == old(ctx)@,
        said(fields, "from"@).len() > 0 ==> final(ctx)@ == (NetView {
            subs: old(ctx)@.subs.insert(said(fields, "from"@), said_list(fields, "apps"@)),
            ..old(ctx)@
        }),
{
    law_standard_features(control, "subscribe_apps"@);
    lemma_kinds();
}

/// An app list is shown as it came, with what we are subscribed to.
pub proof fn law_apps_list_comes_in(
    control: ControlRegistry<Feature>,
    ctx: &mut NetCtx,
    caps: Capabilities,
    now: u64,
    from: &str,
    ip: &str,
    protocol: &str,
    text: &str,
    fields: Seq<JsonFieldView>,
    r: Option<Vec<Effect>>,
)
    requires
        call_ensures(ControlRegistry::with_defaults, (), control),
        call_ensures(
            ControlRegistry::<Feature>::dispatch,
            (&control, ctx, caps, now, from, ip, protocol, text),
            r,
        ),
        json_fields(text@) == Some(fields),
        text_field(fields, "type"@) == Some("apps_list"@),
    ensures
        r is Some,
        final(ctx)@ == old(ctx)@,
        effects(r->0@) == seq![
            EffectView::Emit(
                EventView::AppsList {
                    from: said(fields, "from"@),
                    apps: said_json(fields, "apps"@),
                    subscribed: said_json(fields, "subscribed"@),
                },
            ),
        ],
{
    law_standard_features(control, "apps_list"@);
    lemma_kinds();
}

/// A ping makes its sender live, as a UDP link where it had none, and is answered with a pong.
pub proof fn law_ping_comes_in(
    control: ControlRegistry<Feature>,
    ctx: &mut NetCtx,
    caps: Capabilities,
    now: u64,
    from: &str,
    ip: &str,
    protocol: &str,
    text: &str,
    fields: Seq<JsonFieldView>,
    r: Option<Vec<Effect>>,
)
    requires
        call_ensures(ControlRegistry::with_defaults, (), control),
        call_ensures(
            ControlRegistry::<Feature>::dispatch,
            (&control, ctx, caps, now, from, ip, protocol, text),
            r,
        ),
        json_fields(text@) == Some(fields),
        text_field(fields, "type"@) == Some("p2p_ping"@),
    ensures
        r is Some,
        said(fields, "from"@).len() == 0 ==> final(ctx)@ == old(ctx)@ && effects(r->0@).len() == 0,
        said(fields, "from"@).len() > 0 ==> {
            let who = said(fields, "from"@);
            let live = old(ctx)@.p2p_conns.contains_key(who);
            let told = effects(r->0@);
            &&& final(ctx)@ == (NetView {
                p2p_conns: old(ctx)@.p2p_conns.insert(
                    who,
                    P2pConn {
                        kind: if live {
                            old(ctx)@.p2p_conns[who].kind
                        } else {
                            TransportKind::Udp
                        },
                        last_seen: now,
                        addr: if live {
                            old(ctx)@.p2p_conns[who].addr
                        } else {
                            None
                        },
                    },
                ),
                ..old(ctx)@
            })
            &&& !live ==> told.len() > 0 && told[0] == EffectView::Emit(
                EventView::PeerConnected { node_id: who, transport: TransportKind::Udp },
            )
            &&& told.len() == if live {
                1int
            } else {
                2
            }
            &&& told.last() matches EffectView::Send(o)
            &&& is_control_to(
                old(ctx)@,
                o,
                who,
                json_text(
                    seq![
                        ("type"@, ItemView::Text("p2p_pong"@)),
                        ("from"@, ItemView::Text(old(ctx)@.identity.node_id)),
                    ],
                ),
            )
        },
{
    law_standard_features(control, "p2p_ping"@);
    lemma_kinds();
}

/// A pong makes its sender live just as a ping does, and is not answered.
pub proof fn law_pong_comes_in(
    control: ControlRegistry<Feature>,
    ctx: &mut NetCtx,
    caps: Capabilities,
    now: u64,
    from: &str,
    ip: &str,
    protocol: &str,
    text: &str,
    fields: Seq<JsonFieldView>,
    r: Option<Vec<Effect>>,
)
    requires
        call_ensures(ControlRegistry::with_defaults, (), control),
        call_ensures(
            ControlRegistry::<Feature>::dispatch,
            (&control, ctx, caps, now, from, ip, protocol, text),
            r,
        ),
        json_fields(text@) == Some(fields),
        text_field(fields, "type"@) == Some("p2p_pong"@),
    ensures
        r is Some,
        said(fields, "from"@).len() == 0 ==> final(ctx)@ == old(ctx)@ && effects(r->0@).len() == 0,
        said(fields, "from"@).len() > 0 ==> {
            let who = said(fields, "from"@);
            let live = old(ctx)@.p2p_conns.contains_key(who);
            let told = effects(r->0@);
            &&& final(ctx)@ == (NetView {
                p2p_conns: old(ctx)@.p2p_conns.insert(
                    who,
                    P2pConn {
                        kind: if live {
                            old(ctx)@.p2p_conns[who].kind
                        } else {
                            TransportKind::Udp
                        },
                        last_seen: now,
                        addr: if live {
                            old(ctx)@.p2p_conns[who].addr
                        } else {
                            None
                        },
                    },
                ),
                ..old(ctx)@
            })
            &&& !live ==> told.len() > 0 && told[0] == EffectView::Emit(
                EventView::PeerConnected { node_id: who, transport: TransportKind::Udp },
            )
            &&& told.len() == if live {
                0int
            } else {
                1
            }
        },
{
    law_standard_features(control, "p2p_pong"@);
    lemma_kinds();
}

/// What is no control message is left alone: no JSON, no kind, or a kind that no feature
/// claims.
pub proof fn law_other_text_is_left_alone(
    control: ControlRegistry<Feature>,
    ctx: &mut NetCtx,
    caps: Capabilities,
    now: u64,
    from: &str,
    ip: &str,
    protocol: &str,
    text: &str,
    fields: Seq<JsonFieldView>,
    r: Option<Vec<Effect>>,
)
    requires
        call_ensures(ControlRegistry::with_defaults, (), control),
        call_ensures(
            ControlRegistry::<Feature>::dispatch,
            (&control, ctx, caps, now, from, ip, protocol, text),
            r,
        ),
        json_fields(text@) matches Some(f) ==> (text_field(f, "type"@) matches Some(kind)
            ==> feature_for(kind) is None),
    ensures
        r is None,
        final(ctx)@ == old(ctx)@,
{
    if let Some(f) = json_fields(text@) {
        if let Some(kind) = text_field(f, "type"@) {
            law_standard_features(control, kind);
        }
    }
}

proof fn lemma_kinds()
    ensures
        "clipboard"@ != "clipboard_request"@,
        "clipboard"@ != "clipboard_response"@,
        "clipboard_request"@ != "clipboard_response"@,
        "apps_request"@ != "subscribe_apps"@,
        "apps_request"@ != "apps_list"@,
        "subscribe_apps"@ != "apps_list"@,
        "p2p_ping"@ != "p2p_pong"@,
        feature_for("clipboard"@) == Some(Feature::Clipboard),
        feature_for("clipboard_request"@) == Some(Feature::Clipboard),
        feature_for("clipboard_response"@) == Some(Feature::Clipboard),
        feature_for("notification"@) == Some(Feature::Notification),
        feature_for("call_notification"@) == Some(Feature::CallNotification),
        feature_for("call_history"@) == Some(Feature::CallHistory),
        feature_for("apps_request"@) == Some(Feature::NotifApps),
        feature_for("subscribe_apps"@) == Some(Feature::NotifApps),
        feature_for("apps_list"@) == Some(Feature::NotifApps),
        feature_for("p2p_ping"@) == Some(Feature::P2pPing),
        feature_for("p2p_pong"@) == Some(Feature::P2pPing),
{
    reveal_strlit("clipboard");
    reveal_strlit("clipboard_request");
    reveal_strlit("clipboard_response");
    reveal_strlit("notification");
    reveal_strlit("call_notification");
    reveal_strlit("call_history");
    reveal_strlit("apps_request");
    reveal_strlit("subscribe_apps");
    reveal_strlit("apps_list");
    reveal_strlit("p2p_ping");
    reveal_strlit("p2p_pong");
    assert("clipboard"@.len() == 9 && "clipboard_request"@.len() == 17);
    assert("clipboard_response"@.len() == 18 && "notification"@.len() == 12);
    assert("call_notification"@.len() == 17 && "call_history"@.len() == 12);
    assert("apps_request"@.len() == 12 && "subscribe_apps"@.len() == 14);
    assert("apps_list"@.len() == 9 && "p2p_ping"@.len() == 8 && "p2p_pong"@.len() == 8);
    assert("clipboard"@[0] == 'c' && "apps_list"@[0] == 'a');
    assert("clipboard_request"@[1] == 'l' && "call_notification"@[1] == 'a');
    assert("notification"@[0] == 'n' && "call_history"@[0] == 'c' && "apps_request"@[0] == 'a');
    assert("p2p_ping"@[5] == 'i' && "p2p_pong"@[5] == 'o');
}

} // verus!
