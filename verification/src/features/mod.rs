//! Discrete-feature layer: small, reliable control messages that ride inside the
//! encrypted `Plaintext.text` as a JSON object with a `"type"` tag.
//!
//! Each feature lives in its own file and exposes a [`ControlHandler`]. Handlers
//! register into a [`ControlRegistry`] keyed by the `"type"` value(s) they claim;
//! the engine builds the registry once and dispatch is a map lookup. Adding a
//! feature means a new file and one `register(...)` line.
//!
//! Streaming features (audio/video, remote control) need the binary channel-mux
//! (protocol v2) instead; that seam is documented in `crate::service`.

pub mod call_history;
pub mod call_notification;
pub mod clipboard;
pub mod laws;
pub mod notif_apps;
pub mod notification;
pub mod p2p_ping;

use vstd::prelude::*;

use self::call_history::CallHistoryHandler;
use self::call_notification::CallNotificationHandler;
use self::clipboard::ClipboardHandler;
use self::notif_apps::NotifAppsHandler;
use self::notification::NotificationHandler;
use self::p2p_ping::P2pPingHandler;
use crate::capabilities::Capabilities;
use crate::engine::{NetCtx, NetView};
use crate::events::{effects, Effect, EffectView};
use crate::json::{
    field, fields_view, find_field, items_field, json_fields, parse_fields, text_field, JsonField,
    JsonFieldView,
};
use crate::node_map::NodeMap;
use crate::text::{opt_text, texts};

verus! {

/// A parsed control message handed to a [`ControlHandler`]. `from`/`ip`/`protocol`
/// describe the carrying chat envelope; field accessors read the JSON body.
pub struct ControlMsg<'a> {
    pub from: &'a str,
    pub ip: &'a str,
    pub protocol: &'a str,
    pub fields: Vec<JsonField>,
}

#[verifier::ext_equal]
pub struct MsgView {
    pub from: Seq<char>,
    pub ip: Seq<char>,
    pub protocol: Seq<char>,
    pub fields: Seq<JsonFieldView>,
}

impl MsgView {
    /// The string under a key, or the empty text.
    pub open spec fn str(self, key: Seq<char>) -> Seq<char> {
        match text_field(self.fields, key) {
            Some(s) => s,
            None => Seq::empty(),
        }
    }

    /// The string under a key, where there is one.
    pub open spec fn opt(self, key: Seq<char>) -> Option<Seq<char>> {
        text_field(self.fields, key)
    }

    /// The value under a key as JSON text, or `null`.
    pub open spec fn json(self, key: Seq<char>) -> Seq<char> {
        match field(self.fields, key) {
            Some(f) => f.value.raw,
            None => "null"@,
        }
    }

    /// The kind of message this is.
    pub open spec fn kind(self) -> Seq<char> {
        self.str("type"@)
    }

    /// The strings of the array under a key; no strings where there is no array.
    pub open spec fn strings(self, key: Seq<char>) -> Seq<Seq<char>> {
        match items_field(self.fields, key) {
            Some(items) => only_texts(items),
            None => Seq::empty(),
        }
    }
}

/// What is a text among some values, in order.
pub open spec fn only_texts(items: Seq<Option<Seq<char>>>) -> Seq<Seq<char>>
    decreases items.len(),
{
    if items.len() == 0 {
        Seq::empty()
    } else {
        match items.last() {
            Some(s) => only_texts(items.drop_last()).push(s),
            None => only_texts(items.drop_last()),
        }
    }
}

impl<'a> View for ControlMsg<'a> {
    type V = MsgView;

    open spec fn view(&self) -> MsgView {
        MsgView {
            from: self.from@,
            ip: self.ip@,
            protocol: self.protocol@,
            fields: fields_view(self.fields@),
        }
    }
}

impl<'a> ControlMsg<'a> {
    /// The message in a text; `None` where the text is no JSON.
    pub fn parse(from: &'a str, ip: &'a str, protocol: &'a str, text: &str) -> (r: Option<
        ControlMsg<'a>,
    >)
        ensures
            match r {
                Some(m) => {
                    &&& m@.from == from@
                    &&& m@.ip == ip@
                    &&& m@.protocol == protocol@
                    &&& json_fields(text@) == Some(m@.fields)
                },
                None => json_fields(text@) is None,
            },
    {
        match parse_fields(text) {
            Some(fields) => Some(ControlMsg { from, ip, protocol, fields }),
            None => None,
        }
    }

    /// The `"type"` tag, or "" if absent.
    pub fn kind(&self) -> (r: &str)
        ensures
            r@ == self@.kind(),
    {
        proof {
            reveal_strlit("");
            assert(""@ =~= Seq::empty());
        }
        match find_field(&self.fields, "type") {
            Some(f) => match &f.value.text {
                Some(s) => s.as_str(),
                None => "",
            },
            None => "",
        }
    }

    /// String field, or "" if absent.
    pub fn str(&self, key: &str) -> (r: String)
        ensures
            r@ == self@.str(key@),
    {
        match self.opt(key) {
            Some(s) => s,
            None => String::new(),
        }
    }

    /// Optional string field.
    pub fn opt(&self, key: &str) -> (r: Option<String>)
        ensures
            opt_text(r) == self@.opt(key@),
    {
        match find_field(&self.fields, key) {
            Some(f) => match &f.value.text {
                Some(s) => Some(s.clone()),
                None => None,
            },
            None => None,
        }
    }

    /// Raw JSON field (for opaque passthrough payloads), or `null` if absent.
    pub fn json(&self, key: &str) -> (r: String)
        ensures
            r@ == self@.json(key@),
    {
        match find_field(&self.fields, key) {
            Some(f) => f.value.raw.clone(),
            None => "null".to_owned(),
        }
    }

    /// The strings of an array field; what is no string in it is passed over.
    pub fn strings(&self, key: &str) -> (r: Vec<String>)
        ensures
            texts(r@) == self@.strings(key@),
    {
        let mut out: Vec<String> = Vec::new();
        assert(texts(out@) =~= Seq::<Seq<char>>::empty());
        if let Some(f) = find_field(&self.fields, key) {
            if let Some(items) = &f.value.items {
                let ghost all = items@.map_values(|s: Option<String>| opt_text(s));
                assert(all.take(0) =~= Seq::empty());
                for i in 0..items.len()
                    invariant
                        all == items@.map_values(|s: Option<String>| opt_text(s)),
                        texts(out@) == only_texts(all.take(i as int)),
                {
                    let ghost before = out@;
                    assert(all.take(i + 1).drop_last() =~= all.take(i as int));
                    assert(all.take(i + 1).last() == opt_text(items@[i as int]));
                    if let Some(s) = &items[i] {
                        out.push(s.clone());
                        assert(texts(out@) =~= texts(before).push(s@));
                    }
                }
                assert(all.take(items@.len() as int) =~= all);
            }
        }
        out
    }
}

/// One feature's inbound handler. A handler may claim several `"type"` values
/// (e.g. clipboard's push/request/response trio).
pub trait ControlHandler {
    /// The kinds that this handler claims.
    spec fn kinds_spec(&self) -> Seq<Seq<char>>;

    /// The state and the effects once a message has been handled.
    spec fn handled(&self, net: NetView, caps: Capabilities, now: u64, msg: MsgView) -> (
        NetView,
        Seq<EffectView>,
    );

    fn kinds(&self) -> (r: Vec<String>)
        ensures
            texts(r@) == self.kinds_spec(),
    ;

    fn handle(&self, ctx: &mut NetCtx, caps: Capabilities, now: u64, msg: &ControlMsg) -> (r: Vec<
        Effect,
    >)
        ensures
            final(ctx)@ == self.handled(old(ctx)@, caps, now, msg@).0,
            effects(r@) == self.handled(old(ctx)@, caps, now, msg@).1,
    ;
}

/// The features wired into every build.
#[derive(Clone, Copy, Debug, PartialEq, Eq)]
pub enum Feature {
    Clipboard,
    Notification,
    CallNotification,
    CallHistory,
    NotifApps,
    P2pPing,
}

impl ControlHandler for Feature {
    open spec fn kinds_spec(&self) -> Seq<Seq<char>> {
        match self {
            Feature::Clipboard => ClipboardHandler.kinds_spec(),
            Feature::Notification => NotificationHandler.kinds_spec(),
            Feature::CallNotification => CallNotificationHandler.kinds_spec(),
            Feature::CallHistory => CallHistoryHandler.kinds_spec(),
            Feature::NotifApps => NotifAppsHandler.kinds_spec(),
            Feature::P2pPing => P2pPingHandler.kinds_spec(),
        }
    }

    open spec fn handled(&self, net: NetView, caps: Capabilities, now: u64, msg: MsgView) -> (
        NetView,
        Seq<EffectView>,
    ) {
        match self {
            Feature::Clipboard => ClipboardHandler.handled(net, caps, now, msg),
            Feature::Notification => NotificationHandler.handled(net, caps, now, msg),
            Feature::CallNotification => CallNotificationHandler.handled(net, caps, now, msg),
            Feature::CallHistory => CallHistoryHandler.handled(net, caps, now, msg),
            Feature::NotifApps => NotifAppsHandler.handled(net, caps, now, msg),
            Feature::P2pPing => P2pPingHandler.handled(net, caps, now, msg),
        }
    }

    fn kinds(&self) -> (r: Vec<String>) {
        match self {
            Feature::Clipboard => ClipboardHandler.kinds(),
            Feature::Notification => NotificationHandler.kinds(),
            Feature::CallNotification => CallNotificationHandler.kinds(),
            Feature::CallHistory => CallHistoryHandler.kinds(),
            Feature::NotifApps => NotifAppsHandler.kinds(),
            Feature::P2pPing => P2pPingHandler.kinds(),
        }
    }

    fn handle(&self, ctx: &mut NetCtx, caps: Capabilities, now: u64, msg: &ControlMsg) -> (r: Vec<
        Effect,
    >) {
        match self {
            Feature::Clipboard => ClipboardHandler.handle(ctx, caps, now, msg),
            Feature::Notification => NotificationHandler.handle(ctx, caps, now, msg),
            Feature::CallNotification => CallNotificationHandler.handle(ctx, caps, now, msg),
            Feature::CallHistory => CallHistoryHandler.handle(ctx, caps, now, msg),
            Feature::NotifApps => NotifAppsHandler.handle(ctx, caps, now, msg),
            Feature::P2pPing => P2pPingHandler.handle(ctx, caps, now, msg),
        }
    }
}

/// Map of `"type"` to handler. Built once per engine.
pub struct ControlRegistry<H> {
    handlers: Vec<H>,
    kinds: NodeMap<usize>,
}

impl<H> ControlRegistry<H> {
    #[verifier::type_invariant]
    spec fn wf(&self) -> bool {
        forall|k: Seq<char>|
            self.kinds@.contains_key(k) ==> #[trigger] self.kinds@[k] < self.handlers@.len()
    }
}

impl<H> View for ControlRegistry<H> {
    type V = Map<Seq<char>, H>;

    /// Which handler a kind goes to.
    closed spec fn view(&self) -> Map<Seq<char>, H> {
        Map::new(
            |k: Seq<char>| self.kinds@.contains_key(k),
            |k: Seq<char>| self.handlers@[self.kinds@[k] as int],
        )
    }
}

/// The registry once a handler has claimed some kinds.
pub open spec fn claimed<H>(m: Map<Seq<char>, H>, kinds: Seq<Seq<char>>, handler: H) -> Map<
    Seq<char>,
    H,
> {
    Map::new(
        |k: Seq<char>| m.contains_key(k) || kinds.contains(k),
        |k: Seq<char>|
            if kinds.contains(k) {
                handler
            } else {
                m[k]
            },
    )
}

/// What becomes of a text: `None` where it is no control message that a handler
/// claims, else the state and the effects once it has been handled.
pub open spec fn dispatched<H: ControlHandler>(
    handlers: Map<Seq<char>, H>,
    net: NetView,
    caps: Capabilities,
    now: u64,
    carrier: (Seq<char>, Seq<char>, Seq<char>),
    text: Seq<char>,
) -> Option<(NetView, Seq<EffectView>)> {
    match json_fields(text) {
        None => None,
        Some(fields) => match text_field(fields, "type"@) {
            None => None,
            Some(kind) => if handlers.contains_key(kind) {
                Some(
                    handlers[kind].handled(
                        net,
                        caps,
                        now,
                        MsgView {
                            from: carrier.0,
                            ip: carrier.1,
                            protocol: carrier.2,
                            fields,
                        },
                    ),
                )
            } else {
                None
            },
        },
    }
}

/// The feature that a kind of message belongs to.
pub open spec fn feature_of(kind: Seq<char>) -> Option<Feature> {
    if Feature::Clipboard.kinds_spec().contains(kind) {
        Some(Feature::Clipboard)
    } else if Feature::Notification.kinds_spec().contains(kind) {
        Some(Feature::Notification)
    } else if Feature::CallNotification.kinds_spec().contains(kind) {
        Some(Feature::CallNotification)
    } else if Feature::CallHistory.kinds_spec().contains(kind) {
        Some(Feature::CallHistory)
    } else if Feature::NotifApps.kinds_spec().contains(kind) {
        Some(Feature::NotifApps)
    } else if Feature::P2pPing.kinds_spec().contains(kind) {
        Some(Feature::P2pPing)
    } else {
        None
    }
}

/// Which feature each kind goes to in every build.
pub open spec fn default_handlers() -> Map<Seq<char>, Feature> {
    Map::new(|k: Seq<char>| feature_of(k) is Some, |k: Seq<char>| feature_of(k)->0)
}

/// No kind of message belongs to two features.
pub proof fn law_kinds_are_disjoint(a: Feature, b: Feature, kind: Seq<char>)
    requires
        a.kinds_spec().contains(kind),
        b.kinds_spec().contains(kind),
    ensures
        a == b,
{
    reveal_strlit("clipboard");
    reveal_strlit("clipboard_request");
    reveal_strlit("clipboard_response");
    reveal_strlit("notification");
    reveal_strlit("call_notification");
    reveal_strlit("call_history");
    reveal_strlit("apps_request");
    reveal_strlit("subscribe_apps");
    reveal_strlit("apps_list");
    reveal_strlit("p2p_ping");
    reveal_strlit("p2p_pong");
    assert("clipboard"@.len() == 9 && "clipboard_request"@.len() == 17);
    assert("clipboard_response"@.len() == 18 && "notification"@.len() == 12);
    assert("call_notification"@.len() == 17 && "call_history"@.len() == 12);
    assert("apps_request"@.len() == 12 && "subscribe_apps"@.len() == 14);
    assert("apps_list"@.len() == 9 && "p2p_ping"@.len() == 8 && "p2p_pong"@.len() == 8);
    assert("clipboard"@[0] == 'c' && "apps_list"@[0] == 'a');
    assert("clipboard_request"@[1] == 'l' && "call_notification"@[1] == 'a');
    assert("notification"@[0] == 'n' && "call_history"@[0] == 'c' && "apps_request"@[0] == 'a');
    let x = a.kinds_spec().index_of(kind);
    let y = b.kinds_spec().index_of(kind);
    assert(a.kinds_spec()[x] == kind && b.kinds_spec()[y] == kind);
}

impl ControlRegistry<Feature> {
    /// The standard feature set wired into every build.
    pub fn with_defaults() -> (r: Self)
        ensures
            r@ == default_handlers(),
    {
        let mut r: ControlRegistry<Feature> = ControlRegistry::new();
        r.register(Feature::Clipboard);
        r.register(Feature::Notification);
        r.register(Feature::CallNotification);
        r.register(Feature::CallHistory);
        r.register(Feature::NotifApps);
        r.register(Feature::P2pPing);
        proof {
            assert forall|a: Feature, b: Feature, k: Seq<char>|
                (#[trigger] a.kinds_spec().contains(k)) && (
                #[trigger] b.kinds_spec().contains(k)) implies a == b by {
                law_kinds_are_disjoint(a, b, k);
            }
            assert(r@ =~= default_handlers());
        }
        r
    }
}

impl<H: ControlHandler> ControlRegistry<H> {
    pub fn new() -> (r: Self)
        ensures
            r@ == Map::<Seq<char>, H>::empty(),
    {
        let r = ControlRegistry { handlers: Vec::new(), kinds: NodeMap::new() };
        assert(r@ =~= Map::<Seq<char>, H>::empty());
        r
    }

    /// Let a handler have all messages of the kinds it claims.
    pub fn register(&mut self, handler: H)
        ensures
            final(self)@ == claimed(old(self)@, handler.kinds_spec(), handler),
    {
        proof {
            use_type_invariant(&*self);
        }
        let ghost before = *self;
        let names = handler.kinds();
        let mut kinds: NodeMap<usize> = NodeMap::new();
        let mut handlers: Vec<H> = Vec::new();
        std::mem::swap(&mut kinds, &mut self.kinds);
        std::mem::swap(&mut handlers, &mut self.handlers);
        let n: usize = handlers.len();
        handlers.push(handler);
        for i in 0..names.len()
            invariant
                before.handlers@.len() == n,
                forall|k: Seq<char>|
                    kinds@.contains_key(k) <==> before.kinds@.contains_key(k) || texts(
                        names@,
                    ).take(i as int).contains(k),
                forall|k: Seq<char>|
                    #![trigger kinds@[k]]
                    kinds@.contains_key(k) ==> kinds@[k] == if texts(names@).take(
                        i as int,
                    ).contains(k) {
                        n
                    } else {
                        before.kinds@[k]
                    },
        {
            let ghost seen = texts(names@).take(i as int);
            let ghost more = texts(names@).take(i + 1);
            assert(more =~= seen.push(names@[i as int]@));
            assert forall|k: Seq<char>| more.contains(k) <==> seen.contains(k) || k
                == names@[i as int]@ by {
                if seen.contains(k) {
                    let j = seen.index_of(k);
                    assert(more[j] == k);
                }
                assert(more[i as int] == names@[i as int]@);
            }
            kinds.insert(names[i].clone(), n);
        }
        assert(texts(names@).take(names@.len() as int) =~= texts(names@));
        self.handlers = handlers;
        self.kinds = kinds;
        assert(self@ =~= claimed(before@, handler.kinds_spec(), handler));
    }

    /// Hand `text` to its handler. `None` where it is no recognized control message;
    /// a recognized one was handled in-band, and the caller must not show it as
    /// chat.
    pub fn dispatch(
        &self,
        ctx: &mut NetCtx,
        caps: Capabilities,
        now: u64,
        from: &str,
        ip: &str,
        protocol: &str,
        text: &str,
    ) -> (r: Option<Vec<Effect>>)
        ensures
            match dispatched(self@, old(ctx)@, caps, now, (from@, ip@, protocol@), text@) {
                Some(outcome) => {
                    &&& r is Some
                    &&& final(ctx)@ == outcome.0
                    &&& effects(r->0@) == outcome.1
                },
                None => r is None && final(ctx)@ == old(ctx)@,
            },
    {
        proof {
            use_type_invariant(self);
        }
        let msg = match ControlMsg::parse(from, ip, protocol, text) {
            Some(m) => m,
            None => {
                return None;
            },
        };
        let kind = match msg.opt("type") {
            Some(k) => k,
            None => {
                return None;
            },
        };
        match self.kinds.get(kind.as_str()) {
            Some(i) => {
                assert(self.kinds@[kind@] < self.handlers@.len());
                Some(self.handlers[*i].handle(ctx, caps, now, &msg))
            },
            None => None,
        }
    }
}

} // verus!
