//! What the features promise from end to end: a message that one device writes has
//! its effect on the device that reads it.

use vstd::prelude::*;

use super::notif_apps::subscribed;
use super::{
    default_handlers, dispatched, feature_of, only_texts, ControlHandler, Feature, MsgView,
};
use crate::capabilities::Capabilities;
use crate::engine::NetView;
use crate::events::{EffectView, EventView};
use crate::json::{json_fields, json_value, reads_back, text_field, ItemView};
use crate::messages::{
    apps_list_fields, apps_list_text, bare_text, call_fields, clipboard_fields, empty_list,
    history_fields, json_or, notification_fields, subscribe_fields, tagged,
};
use crate::transport::send::control_to;
use crate::transport::{marked_live, TransportKind};

verus! {

/// A kind that a feature claims goes to that feature.
pub proof fn law_kind_goes_to_its_feature(f: Feature, kind: Seq<char>)
    requires
        f.kinds_spec().contains(kind),
    ensures
        default_handlers().contains_key(kind),
        default_handlers()[kind] == f,
{
    assert forall|g: Feature| #[trigger] g.kinds_spec().contains(kind) implies g == f by {
        super::law_kinds_are_disjoint(f, g, kind);
    }
    assert(feature_of(kind) == Some(f));
}

proof fn lemma_tag_read(text: Seq<char>, written: Seq<(Seq<char>, ItemView)>, kind: Seq<char>, me: Seq<char>)
    requires
        reads_back(json_fields(text), written),
        written.len() >= 2,
        written[0] == ("type"@, ItemView::Text(kind)),
        written[1] == ("from"@, ItemView::Text(me)),
    ensures
        json_fields(text) is Some,
        text_field(json_fields(text)->0, "type"@) == Some(kind),
        text_field(json_fields(text)->0, "from"@) == Some(me),
{
    assert(written[0].0 == "type"@);
    assert(written[1].0 == "from"@);
}

/// A ping marks its sender live and is answered with a pong that speaks for this
/// device, over the best transport to the sender.
pub proof fn law_ping_is_answered(
    net: NetView,
    caps: Capabilities,
    now: u64,
    carrier: (Seq<char>, Seq<char>, Seq<char>),
    text: Seq<char>,
    peer: Seq<char>,
)
    requires
        reads_back(json_fields(text), tagged("p2p_ping"@, peer)),
        peer.len() > 0,
    ensures
        ({
            let live = marked_live(net, peer, TransportKind::Udp, None, now);
            let pong = bare_text("p2p_pong"@, net.identity.node_id);
            dispatched(default_handlers(), net, caps, now, carrier, text) == Some(
                (live.0, live.1.push(EffectView::Send(control_to(net, peer, pong)))),
            )
        }),
{
    lemma_tag_read(text, tagged("p2p_ping"@, peer), "p2p_ping"@, peer);
    assert(Feature::P2pPing.kinds_spec()[0] == "p2p_ping"@);
    law_kind_goes_to_its_feature(Feature::P2pPing, "p2p_ping"@);
}

/// A pong marks its sender live and is not answered, so that a ping has one answer
/// and the exchange ends.
pub proof fn law_pong_ends_the_exchange(
    net: NetView,
    caps: Capabilities,
    now: u64,
    carrier: (Seq<char>, Seq<char>, Seq<char>),
    text: Seq<char>,
    peer: Seq<char>,
)
    requires
        reads_back(json_fields(text), tagged("p2p_pong"@, peer)),
        peer.len() > 0,
    ensures
        dispatched(default_handlers(), net, caps, now, carrier, text) == Some(
            marked_live(net, peer, TransportKind::Udp, None, now),
        ),
        marked_live(net, peer, TransportKind::Udp, None, now).0.p2p_conns.contains_key(peer),
        marked_live(net, peer, TransportKind::Udp, None, now).0.p2p_conns[peer].last_seen == now,
{
    lemma_tag_read(text, tagged("p2p_pong"@, peer), "p2p_pong"@, peer);
    assert(Feature::P2pPing.kinds_spec()[1] == "p2p_pong"@);
    law_kind_goes_to_its_feature(Feature::P2pPing, "p2p_pong"@);
    reveal_strlit("p2p_ping");
    reveal_strlit("p2p_pong");
    assert("p2p_ping"@[5] == 'i' && "p2p_pong"@[5] == 'o');
}

/// A shared notification arrives on the other device with all its fields.
pub proof fn law_notification_arrives(
    net: NetView,
    caps: Capabilities,
    now: u64,
    carrier: (Seq<char>, Seq<char>, Seq<char>),
    text: Seq<char>,
    sender: Seq<char>,
    title: Seq<char>,
    body: Seq<char>,
    app: Option<Seq<char>>,
)
    requires
        reads_back(json_fields(text), notification_fields(sender, title, body, app)),
    ensures
        ({
            let told = EffectView::Emit(EventView::Notification { from: sender, title, body, app });
            let outcome = dispatched(default_handlers(), net, caps, now, carrier, text);
            &&& outcome is Some
            &&& (outcome->0).0 == net
            &&& (outcome->0).1 == if caps.notifier {
                seq![EffectView::Notify { title, body }, told]
            } else {
                seq![told]
            }
        }),
{
    let written = notification_fields(sender, title, body, app);
    lemma_tag_read(text, written, "notification"@, sender);
    assert(written[2].0 == "title"@ && written[3].0 == "body"@ && written[4].0 == "app"@);
    assert(Feature::Notification.kinds_spec()[0] == "notification"@);
    law_kind_goes_to_its_feature(Feature::Notification, "notification"@);
    let outcome = dispatched(default_handlers(), net, caps, now, carrier, text);
    let told = EffectView::Emit(EventView::Notification { from: sender, title, body, app });
    if caps.notifier {
        assert((outcome->0).1 =~= seq![EffectView::Notify { title, body }, told]);
    } else {
        assert((outcome->0).1 =~= seq![told]);
    }
}

/// A shared call arrives on the other device with all its fields.
pub proof fn law_call_arrives(
    net: NetView,
    caps: Capabilities,
    now: u64,
    carrier: (Seq<char>, Seq<char>, Seq<char>),
    text: Seq<char>,
    sender: Seq<char>,
    caller: Seq<char>,
    number: Option<Seq<char>>,
    state: Seq<char>,
)
    requires
        reads_back(json_fields(text), call_fields(sender, caller, number, state)),
    ensures
        dispatched(default_handlers(), net, caps, now, carrier, text) == Some(
            (
                net,
                seq![
                    EffectView::Emit(
                        EventView::CallNotification { from: sender, caller, number, state },
                    ),
                ],
            ),
        ),
{
    let written = call_fields(sender, caller, number, state);
    lemma_tag_read(text, written, "call_notification"@, sender);
    assert(written[2].0 == "caller"@ && written[3].0 == "number"@ && written[4].0 == "state"@);
    assert(Feature::CallNotification.kinds_spec()[0] == "call_notification"@);
    law_kind_goes_to_its_feature(Feature::CallNotification, "call_notification"@);
}

/// A clipboard push is applied exactly where auto-sync is on and there is a
/// clipboard; there it is remembered as the last value, so that the watcher does
/// not send it back.
pub proof fn law_clipboard_push(
    net: NetView,
    caps: Capabilities,
    now: u64,
    carrier: (Seq<char>, Seq<char>, Seq<char>),
    text: Seq<char>,
    sender: Seq<char>,
    content: Seq<char>,
)
    requires
        reads_back(json_fields(text), clipboard_fields("clipboard"@, sender, content)),
    ensures
        ({
            let outcome = dispatched(default_handlers(), net, caps, now, carrier, text);
            &&& outcome is Some
            &&& net.clip_active && caps.clipboard ==> {
                &&& (outcome->0).0 == NetView { clip_last: content, ..net }
                &&& (outcome->0).1.len() == 2
                &&& (outcome->0).1[0] == EffectView::SetClipboard(content)
            }
            &&& !(net.clip_active && caps.clipboard) ==> outcome->0 == (
                net,
                Seq::<EffectView>::empty(),
            )
        }),
{
    let written = clipboard_fields("clipboard"@, sender, content);
    lemma_tag_read(text, written, "clipboard"@, sender);
    assert(written[2].0 == "content"@);
    assert(Feature::Clipboard.kinds_spec()[0] == "clipboard"@);
    law_kind_goes_to_its_feature(Feature::Clipboard, "clipboard"@);
}

/// A clipboard request is answered by reading the clipboard for the one who asks.
pub proof fn law_clipboard_request(
    net: NetView,
    caps: Capabilities,
    now: u64,
    carrier: (Seq<char>, Seq<char>, Seq<char>),
    text: Seq<char>,
    sender: Seq<char>,
)
    requires
        reads_back(json_fields(text), tagged("clipboard_request"@, sender)),
        sender.len() > 0,
    ensures
        dispatched(default_handlers(), net, caps, now, carrier, text) == Some(
            (net, seq![EffectView::ReadClipboard { requester: sender }]),
        ),
{
    lemma_tag_read(text, tagged("clipboard_request"@, sender), "clipboard_request"@, sender);
    assert(Feature::Clipboard.kinds_spec()[1] == "clipboard_request"@);
    law_kind_goes_to_its_feature(Feature::Clipboard, "clipboard_request"@);
    reveal_strlit("clipboard");
    reveal_strlit("clipboard_request");
    assert("clipboard"@.len() == 9 && "clipboard_request"@.len() == 17);
}

/// A clipboard response goes to the pull that waits for this sender, once; one that
/// nobody waits for does nothing.
pub proof fn law_clipboard_response(
    net: NetView,
    caps: Capabilities,
    now: u64,
    carrier: (Seq<char>, Seq<char>, Seq<char>),
    text: Seq<char>,
    sender: Seq<char>,
    content: Seq<char>,
)
    requires
        reads_back(json_fields(text), clipboard_fields("clipboard_response"@, sender, content)),
    ensures
        ({
            let outcome = dispatched(default_handlers(), net, caps, now, carrier, text);
            &&& outcome is Some
            &&& net.clip_pending.contains_key(sender) ==> outcome->0 == (
                NetView { clip_pending: net.clip_pending.remove(sender), ..net },
                seq![EffectView::AnswerPull { ticket: net.clip_pending[sender], content }],
            )
            &&& !net.clip_pending.contains_key(sender) ==> outcome->0 == (
                net,
                Seq::<EffectView>::empty(),
            )
        }),
{
    let written = clipboard_fields("clipboard_response"@, sender, content);
    lemma_tag_read(text, written, "clipboard_response"@, sender);
    assert(written[2].0 == "content"@);
    assert(Feature::Clipboard.kinds_spec()[2] == "clipboard_response"@);
    law_kind_goes_to_its_feature(Feature::Clipboard, "clipboard_response"@);
    reveal_strlit("clipboard");
    reveal_strlit("clipboard_request");
    reveal_strlit("clipboard_response");
    assert("clipboard"@.len() == 9 && "clipboard_request"@.len() == 17);
    assert("clipboard_response"@.len() == 18);
}

/// Shared call-history entries arrive on the other device as JSON that says the same:
/// what the printed form of the entries reads as, and `null` where they were no JSON.
pub proof fn law_call_history_arrives(
    net: NetView,
    caps: Capabilities,
    now: u64,
    carrier: (Seq<char>, Seq<char>, Seq<char>),
    text: Seq<char>,
    sender: Seq<char>,
    entries: Seq<char>,
)
    requires
        reads_back(json_fields(text), history_fields(sender, entries)),
    ensures
        ({
            let outcome = dispatched(default_handlers(), net, caps, now, carrier, text);
            &&& outcome matches Some(o)
            &&& o.0 == net
            &&& o.1.len() == 1
            &&& o.1[0] matches EffectView::Emit(EventView::CallHistory { from, entries: arrived })
            &&& from == sender
            &&& match json_value(entries) {
                Some(w) => json_value(w.raw) matches Some(v) && arrived == v.raw,
                None => arrived == "null"@,
            }
        }),
{
    let written = history_fields(sender, entries);
    lemma_tag_read(text, written, "call_history"@, sender);
    assert(written[2] == ("entries"@, json_or(entries, ItemView::Null)));
    assert(Feature::CallHistory.kinds_spec()[0] == "call_history"@);
    law_kind_goes_to_its_feature(Feature::CallHistory, "call_history"@);
}

/// The strings of an array that is given as JSON text; no strings where it is none.
pub open spec fn listed(text: Seq<char>) -> Seq<Seq<char>> {
    match json_value(text) {
        Some(v) => match v.items {
            Some(items) => only_texts(items),
            None => Seq::empty(),
        },
        None => Seq::empty(),
    }
}

/// The strings among strings are all of them.
proof fn lemma_only_texts(l: Seq<Seq<char>>)
    ensures
        only_texts(l.map_values(|s: Seq<char>| Some(s))) == l,
    decreases l.len(),
{
    let items = l.map_values(|s: Seq<char>| Some(s));
    if l.len() > 0 {
        lemma_only_texts(l.drop_last());
        assert(items.drop_last() =~= l.drop_last().map_values(|s: Seq<char>| Some(s)));
        assert(l.drop_last().push(l.last()) =~= l);
    } else {
        assert(l =~= Seq::empty());
    }
}

/// A subscription is stored on the producer with the packages that the consumer sent, in
/// place of what it had of that consumer before.
pub proof fn law_subscription_is_stored(
    net: NetView,
    caps: Capabilities,
    now: u64,
    carrier: (Seq<char>, Seq<char>, Seq<char>),
    text: Seq<char>,
    sender: Seq<char>,
    apps: Seq<char>,
)
    requires
        reads_back(json_fields(text), subscribe_fields(sender, apps)),
        sender.len() > 0,
    ensures
        dispatched(default_handlers(), net, caps, now, carrier, text) == Some(
            (
                NetView { subs: net.subs.insert(sender, listed(apps)), ..net },
                Seq::<EffectView>::empty(),
            ),
        ),
{
    let written = subscribe_fields(sender, apps);
    lemma_tag_read(text, written, "subscribe_apps"@, sender);
    assert(written[2] == ("apps"@, json_or(apps, empty_list())));
    lemma_only_texts(Seq::empty());
    assert(Feature::NotifApps.kinds_spec()[1] == "subscribe_apps"@);
    law_kind_goes_to_its_feature(Feature::NotifApps, "subscribe_apps"@);
    reveal_strlit("apps_request");
    reveal_strlit("subscribe_apps");
    assert("apps_request"@.len() == 12 && "subscribe_apps"@.len() == 14);
}

/// A request for the app list is answered with the list that the host set and with what
/// the requester is subscribed to, over the best transport to the requester.
pub proof fn law_apps_request_is_answered(
    net: NetView,
    caps: Capabilities,
    now: u64,
    carrier: (Seq<char>, Seq<char>, Seq<char>),
    text: Seq<char>,
    sender: Seq<char>,
)
    requires
        reads_back(json_fields(text), tagged("apps_request"@, sender)),
        sender.len() > 0,
    ensures
        ({
            let answer = apps_list_text(
                net.identity.node_id,
                net.installed_apps,
                subscribed(net, sender),
            );
            dispatched(default_handlers(), net, caps, now, carrier, text) == Some(
                (net, seq![EffectView::Send(control_to(net, sender, answer))]),
            )
        }),
{
    lemma_tag_read(text, tagged("apps_request"@, sender), "apps_request"@, sender);
    assert(Feature::NotifApps.kinds_spec()[0] == "apps_request"@);
    law_kind_goes_to_its_feature(Feature::NotifApps, "apps_request"@);
}

/// A producer's app list arrives at the consumer as JSON that says the same, and with it
/// a JSON list of exactly the packages that the consumer is subscribed to.
pub proof fn law_apps_list_arrives(
    net: NetView,
    caps: Capabilities,
    now: u64,
    carrier: (Seq<char>, Seq<char>, Seq<char>),
    text: Seq<char>,
    sender: Seq<char>,
    installed: Seq<char>,
    packages: Seq<Seq<char>>,
)
    requires
        reads_back(json_fields(text), apps_list_fields(sender, installed, packages)),
    ensures
        ({
            let outcome = dispatched(default_handlers(), net, caps, now, carrier, text);
            &&& outcome matches Some(o)
            &&& o.0 == net
            &&& o.1.len() == 1
            &&& o.1[0] matches EffectView::Emit(
                EventView::AppsList { from, apps, subscribed: enabled },
            )
            &&& from == sender
            &&& match json_value(installed) {
                Some(w) => json_value(w.raw) matches Some(v) && apps == v.raw,
                None => json_value(apps) is Some && listed(apps) == Seq::<Seq<char>>::empty(),
            }
            &&& json_value(enabled) is Some
            &&& listed(enabled) == packages
        }),
{
    let written = apps_list_fields(sender, installed, packages);
    lemma_tag_read(text, written, "apps_list"@, sender);
    assert(written[2] == ("apps"@, json_or(installed, empty_list())));
    assert(written[3] == ("subscribed"@, ItemView::Texts(packages)));
    lemma_only_texts(packages);
    lemma_only_texts(Seq::empty());
    assert(Feature::NotifApps.kinds_spec()[2] == "apps_list"@);
    law_kind_goes_to_its_feature(Feature::NotifApps, "apps_list"@);
    reveal_strlit("apps_request");
    reveal_strlit("subscribe_apps");
    reveal_strlit("apps_list");
    assert("apps_request"@.len() == 12 && "subscribe_apps"@.len() == 14);
    assert("apps_list"@.len() == 9);
}

/// A text that is no JSON object with a known `"type"` is never taken for a control
/// message, and changes nothing.
pub proof fn law_chat_is_left_alone(
    net: NetView,
    caps: Capabilities,
    now: u64,
    carrier: (Seq<char>, Seq<char>, Seq<char>),
    text: Seq<char>,
)
    requires
        match json_fields(text) {
            None => true,
            Some(fields) => match text_field(fields, "type"@) {
                None => true,
                Some(kind) => feature_of(kind) is None,
            },
        },
    ensures
        dispatched(default_handlers(), net, caps, now, carrier, text) is None,
{
}

/// Whether an effect shows a chat message.
pub open spec fn shows_chat(e: EffectView) -> bool {
    e matches EffectView::Emit(ev) && ev is MessageReceived
}

/// A control message is handled in-band and never shown as chat, whatever it says.
pub proof fn law_control_is_never_chat(
    net: NetView,
    caps: Capabilities,
    now: u64,
    carrier: (Seq<char>, Seq<char>, Seq<char>),
    text: Seq<char>,
)
    requires
        dispatched(default_handlers(), net, caps, now, carrier, text) is Some,
    ensures
        ({
            let out = dispatched(default_handlers(), net, caps, now, carrier, text)->0;
            forall|i: int| 0 <= i < out.1.len() ==> !shows_chat(#[trigger] out.1[i])
        }),
{
    let fields = json_fields(text)->0;
    let kind = text_field(fields, "type"@)->0;
    let f = default_handlers()[kind];
    let msg = MsgView { from: carrier.0, ip: carrier.1, protocol: carrier.2, fields };
    let out = f.handled(net, caps, now, msg);
    assert forall|i: int| 0 <= i < out.1.len() implies !shows_chat(#[trigger] out.1[i]) by {
        match f {
            Feature::Clipboard => {},
            Feature::Notification => {},
            Feature::CallNotification => {},
            Feature::CallHistory => {},
            Feature::NotifApps => {},
            Feature::P2pPing => {},
        }
    }
}

} // verus!
