//! The control messages as they go over the wire, and what they do where they arrive.

use vstd::prelude::*;

use crate::engine::NetCtx;
use crate::events::Outgoing;
use crate::features::clipboard::clipboard_reply;
use crate::features::{ControlHandler, ControlRegistry, Feature};
use crate::json::{json_text, json_value, ItemView};
use crate::messages::{
    apps_list_message, bare_message, call_message, clipboard_message, history_message,
    notification_message, subscribe_message,
};
use crate::text::{opt_str, texts};

verus! {

/// A text or nothing, as JSON.
pub open spec fn text_or_null(s: Option<&str>) -> ItemView {
    match s {
        Some(t) => ItemView::Text(t@),
        None => ItemView::Null,
    }
}

/// A ping, a pong or a request is its kind and its sender.
pub proof fn law_bare_message(kind: &str, me: &str, r: String)
    requires
        call_ensures(bare_message, (kind, me), r),
    ensures
        r@ == json_text(seq![("type"@, ItemView::Text(kind@)), ("from"@, ItemView::Text(me@))]),
{
}

/// A clipboard travels under "content".
pub proof fn law_clipboard_message(kind: &str, me: &str, content: &str, r: String)
    requires
        call_ensures(clipboard_message, (kind, me, content), r),
    ensures
        r@ == json_text(
            seq![
                ("type"@, ItemView::Text(kind@)),
                ("from"@, ItemView::Text(me@)),
                ("content"@, ItemView::Text(content@)),
            ],
        ),
{
    assert(crate::messages::clipboard_fields(kind@, me@, content@) =~= seq![
        ("type"@, ItemView::Text(kind@)),
        ("from"@, ItemView::Text(me@)),
        ("content"@, ItemView::Text(content@)),
    ]);
}

/// A notification travels with its title, its body and its app.
pub proof fn law_notification_message(
    me: &str,
    title: &str,
    body: &str,
    app: Option<&str>,
    r: String,
)
    requires
        call_ensures(notification_message, (me, title, body, app), r),
    ensures
        r@ == json_text(
            seq![
                ("type"@, ItemView::Text("notification"@)),
                ("from"@, ItemView::Text(me@)),
                ("title"@, ItemView::Text(title@)),
                ("body"@, ItemView::Text(body@)),
                ("app"@, text_or_null(app)),
            ],
        ),
{
    assert(crate::messages::notification_fields(me@, title@, body@, opt_str(app)) =~= seq![
        ("type"@, ItemView::Text("notification"@)),
        ("from"@, ItemView::Text(me@)),
        ("title"@, ItemView::Text(title@)),
        ("body"@, ItemView::Text(body@)),
        ("app"@, text_or_null(app)),
    ]);
}

/// A call travels with its caller, its number and its state.
pub proof fn law_call_message(
    me: &str,
    caller: &str,
    number: Option<&str>,
    state: &str,
    r: String,
)
    requires
        call_ensures(call_message, (me, caller, number, state), r),
    ensures
        r@ == json_text(
            seq![
                ("type"@, ItemView::Text("call_notification"@)),
                ("from"@, ItemView::Text(me@)),
                ("caller"@, ItemView::Text(caller@)),
                ("number"@, text_or_null(number)),
                ("state"@, ItemView::Text(state@)),
            ],
        ),
{
    assert(crate::messages::call_fields(me@, caller@, opt_str(number), state@) =~= seq![
        ("type"@, ItemView::Text("call_notification"@)),
        ("from"@, ItemView::Text(me@)),
        ("caller"@, ItemView::Text(caller@)),
        ("number"@, text_or_null(number)),
        ("state"@, ItemView::Text(state@)),
    ]);
}

/// JSON text, or another value where it is none.
pub open spec fn json_or_else(text: Seq<char>, default: ItemView) -> ItemView {
    if json_value(text) is Some {
        ItemView::Raw(text)
    } else {
        default
    }
}

/// Call history and subscriptions travel as the JSON that was given; what is no JSON travels
/// as `null`, or as the empty list.
pub proof fn law_raw_messages(me: &str, text: &str, history: String, subscription: String)
    requires
        call_ensures(history_message, (me, text), history),
        call_ensures(subscribe_message, (me, text), subscription),
    ensures
        history@ == json_text(
            seq![
                ("type"@, ItemView::Text("call_history"@)),
                ("from"@, ItemView::Text(me@)),
                ("entries"@, json_or_else(text@, ItemView::Null)),
            ],
        ),
        subscription@ == json_text(
            seq![
                ("type"@, ItemView::Text("subscribe_apps"@)),
                ("from"@, ItemView::Text(me@)),
                ("apps"@, json_or_else(text@, ItemView::Texts(Seq::empty()))),
            ],
        ),
{
    assert(crate::messages::history_fields(me@, text@) =~= seq![
        ("type"@, ItemView::Text("call_history"@)),
        ("from"@, ItemView::Text(me@)),
        ("entries"@, json_or_else(text@, ItemView::Null)),
    ]);
    assert(crate::messages::subscribe_fields(me@, text@) =~= seq![
        ("type"@, ItemView::Text("subscribe_apps"@)),
        ("from"@, ItemView::Text(me@)),
        ("apps"@, json_or_else(text@, ItemView::Texts(Seq::empty()))),
    ]);
}

/// An app list travels as the JSON that the host set, with what the requester is subscribed to.
pub proof fn law_apps_list_message(
    me: &str,
    installed: &str,
    subscribed: Vec<String>,
    r: String,
)
    requires
        call_ensures(apps_list_message, (me, installed, &subscribed), r),
    ensures
        r@ == json_text(
            seq![
                ("type"@, ItemView::Text("apps_list"@)),
                ("from"@, ItemView::Text(me@)),
                ("apps"@, json_or_else(installed@, ItemView::Texts(Seq::empty()))),
                ("subscribed"@, ItemView::Texts(texts(subscribed@))),
            ],
        ),
{
    assert(crate::messages::apps_list_fields(me@, installed@, texts(subscribed@)) =~= seq![
        ("type"@, ItemView::Text("apps_list"@)),
        ("from"@, ItemView::Text(me@)),
        ("apps"@, json_or_else(installed@, ItemView::Texts(Seq::empty()))),
        ("subscribed"@, ItemView::Texts(texts(subscribed@))),
    ]);
}

/// A peer that pulls our clipboard gets what is on it, or an empty text.
pub proof fn law_clipboard_is_answered(
    ctx: NetCtx,
    requester: &str,
    current: Option<String>,
    r: Outgoing,
)
    requires
        call_ensures(clipboard_reply, (&ctx, requester, current), r),
    ensures
        crate::laws::sending::is_control_to(
            ctx@,
            r@,
            requester@,
            json_text(
                seq![
                    ("type"@, ItemView::Text("clipboard_response"@)),
                    ("from"@, ItemView::Text(ctx@.identity.node_id)),
                    (
                        "content"@,
                        ItemView::Text(
                            match current {
                                Some(s) => s@,
                                None => Seq::empty(),
                            },
                        ),
                    ),
                ],
            ),
        ),
{
    let content = match current {
        Some(s) => s@,
        None => Seq::empty(),
    };
    assert(crate::messages::clipboard_fields(
        "clipboard_response"@,
        ctx@.identity.node_id,
        content,
    ) =~= seq![
        ("type"@, ItemView::Text("clipboard_response"@)),
        ("from"@, ItemView::Text(ctx@.identity.node_id)),
        (
            "content"@,
            ItemView::Text(
                match current {
                    Some(s) => s@,
                    None => Seq::empty(),
                },
            ),
        ),
    ]);
}

/// The kinds of message, each with the feature that it is for; no other kind is claimed.
pub open spec fn feature_for(kind: Seq<char>) -> Option<Feature> {
    if kind == "clipboard"@ || kind == "clipboard_request"@ || kind == "clipboard_response"@ {
        Some(Feature::Clipboard)
    } else if kind == "notification"@ {
        Some(Feature::Notification)
    } else if kind == "call_notification"@ {
        Some(Feature::CallNotification)
    } else if kind == "call_history"@ {
        Some(Feature::CallHistory)
    } else if kind == "apps_request"@ || kind == "subscribe_apps"@ || kind == "apps_list"@ {
        Some(Feature::NotifApps)
    } else if kind == "p2p_ping"@ || kind == "p2p_pong"@ {
        Some(Feature::P2pPing)
    } else {
        None
    }
}

/// Every build has all the features: each kind of message goes to the one it is for.
pub proof fn law_standard_features(r: ControlRegistry<Feature>, kind: Seq<char>)
    requires
        call_ensures(ControlRegistry::with_defaults, (), r),
    ensures
        r@.contains_key(kind) <==> feature_for(kind) is Some,
        feature_for(kind) matches Some(f) ==> r@[kind] == f,
{
    lemma_feature_of(kind);
}

proof fn lemma_feature_of(kind: Seq<char>)
    ensures
        crate::features::feature_of(kind) == feature_for(kind),
{
    let a = Feature::Clipboard.kinds_spec();
    let b = Feature::Notification.kinds_spec();
    let c = Feature::CallNotification.kinds_spec();
    let d = Feature::CallHistory.kinds_spec();
    let e = Feature::NotifApps.kinds_spec();
    let f = Feature::P2pPing.kinds_spec();
    assert(a.len() == 3 && a[0] == "clipboard"@ && a[1] == "clipboard_request"@ && a[2]
        == "clipboard_response"@);
    assert(b.len() == 1 && b[0] == "notification"@);
    assert(c.len() == 1 && c[0] == "call_notification"@);
    assert(d.len() == 1 && d[0] == "call_history"@);
    assert(e.len() == 3 && e[0] == "apps_request"@ && e[1] == "subscribe_apps"@ && e[2]
        == "apps_list"@);
    assert(f.len() == 2 && f[0] == "p2p_ping"@ && f[1] == "p2p_pong"@);
    lemma_one_of(a, kind);
    lemma_one_of(b, kind);
    lemma_one_of(c, kind);
    lemma_one_of(d, kind);
    lemma_one_of(e, kind);
    lemma_one_of(f, kind);
}

proof fn lemma_one_of(s: Seq<Seq<char>>, x: Seq<char>)
    requires
        1 <= s.len() <= 3,
    ensures
        s.contains(x) <==> x == s[0] || (s.len() > 1 && x == s[1]) || (s.len() > 2 && x == s[2]),
{
    if s.contains(x) {
        let k = s.index_of(x);
        assert(s[k] == x);
    }
}

} // verus!
