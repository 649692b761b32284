//! What a device sends of its own accord and by the clock.

use vstd::prelude::*;

use crate::capabilities::Capabilities;
use crate::engine::share::PULL_SECS;
use crate::engine::watch::{clipboard_tick, heartbeat_tick, network_tick};
use crate::engine::{Engine, EngineView, NetCtx, NetView};
use crate::events::{effects, Effect, EffectView, EventView, Outgoing, OutgoingView};
use crate::json::{json_text, ItemView};
use crate::laws::messages::{json_or_else, text_or_null};
use crate::laws::sending::{is_broadcast, is_control_to, lemma_broadcast};
use crate::model::IdentityView;
use crate::net::{dotted, law_ipv4_round_trip, Endpoint, Ipv4};
use crate::text::{decimal, opt_str, same_ignoring_ascii_case, trimmed};
use crate::transport::TransportKind;

verus! {

/// The directed transport is TCP where that was asked for, however it was spelled, and UDP
/// otherwise.
pub proof fn law_directed_transport_is_set(e: &mut Engine, t: &str, r: String)
    requires
        call_ensures(Engine::set_directed_transport, (e, t), ()),
        call_ensures(Engine::directed_transport, (&*final(e),), r),
    ensures
        r@ == if same_ignoring_ascii_case(trimmed(t@), "tcp"@) {
            "TCP"@
        } else {
            "UDP"@
        },
        final(e)@ == (EngineView {
            net: NetView { directed_transport: r@, ..old(e)@.net },
            ..old(e)@
        }),
{
}

/// A WebSocket is dialed to a known peer that has a port for it and no link yet, at its
/// address and that port.
pub proof fn law_ws_to_peer(
    e: Engine,
    node_id: &str,
    ip: Ipv4,
    r: Result<Option<(Endpoint, String)>, String>,
)
    requires
        call_ensures(Engine::connect_ws, (&e, node_id), r),
    ensures
        !e@.net.peers.contains_key(node_id@) ==> (r matches Err(t) && t@ == "peer not found"@),
        e@.net.peers.contains_key(node_id@) ==> {
            let peer = e@.net.peers[node_id@];
            &&& peer.ws_port == 0 ==> (r matches Err(t) && t@ == "peer has no WebSocket port"@)
            &&& peer.ws_port != 0 && e@.net.ws_conns.contains_key(node_id@) ==> (r matches Ok(t)
                && t is None)
            &&& peer.ws_port != 0 && !e@.net.ws_conns.contains_key(node_id@) && peer.ip == dotted(
                ip,
            ) ==> {
                &&& r matches Ok(Some(t))
                &&& t.0 == (Endpoint { ip, port: peer.ws_port })
                &&& t.1@ == "ws://"@ + peer.ip + ":"@ + decimal(peer.ws_port as nat) + "/"@
            }
            &&& peer.ws_port != 0 && !e@.net.ws_conns.contains_key(node_id@) && (forall|x: Ipv4|
                #[trigger] dotted(x) != peer.ip) ==> (r matches Err(t) && t@ == "bad peer ip"@)
        },
{
    law_ipv4_round_trip(ip);
}

/// A chat message goes as it is to the peer it is for, from the user, or from the device
/// where nobody is logged in, over the best transport.
pub proof fn law_chat_is_sent(e: Engine, node_id: &str, text: &str, r: Outgoing)
    requires
        call_ensures(Engine::send, (&e, node_id, text), r),
    ensures
        r@.text == text@,
        r@.node_id == node_id@,
        e@.username matches Some(u) ==> r@.from == u,
        e@.username is None ==> r@.from == e@.net.identity.name,
        r@.protocol == if e@.net.ws_conns.contains_key(node_id@) {
            "WS"@
        } else if same_ignoring_ascii_case(trimmed(e@.net.directed_transport), "tcp"@) {
            "TCP"@
        } else {
            "UDP"@
        },
{
}

/// Auto-sync can be switched on and off. What is on the clipboard when it is switched on is
/// taken as seen, and so is not sent; all else stays.
pub proof fn law_clipboard_sync_switch(
    e: &mut Engine,
    f: &mut Engine,
    current: Option<String>,
    on: bool,
    off: bool,
)
    requires
        call_ensures(Engine::enable_clipboard_sync, (e, current), ()),
        call_ensures(Engine::clipboard_sync_enabled, (&*final(e),), on),
        call_ensures(Engine::disable_clipboard_sync, (f,), ()),
        call_ensures(Engine::clipboard_sync_enabled, (&*final(f),), off),
    ensures
        on && !off,
        final(e)@ == (EngineView {
            net: NetView {
                clip_active: true,
                clip_last: final(e)@.net.clip_last,
                ..old(e)@.net
            },
            ..old(e)@
        }),
        current matches Some(c) ==> final(e)@.net.clip_last == c@,
        current is None ==> final(e)@.net.clip_last == old(e)@.net.clip_last,
        final(f)@ == (EngineView { net: NetView { clip_active: false, ..old(f)@.net }, ..old(f)@ }),
{
}

/// The clipboard is sent to every peer when auto-sync is on and it holds something new, and
/// only then; what was sent counts as seen.
pub proof fn law_clipboard_is_watched(ctx: &mut NetCtx, current: Option<String>, r: Vec<Outgoing>)
    requires
        old(ctx).peers.wf(),
        call_ensures(clipboard_tick, (ctx, current), r),
    ensures
        ({
            let news = old(ctx)@.clip_active && (current matches Some(c) && c@.len() > 0 && c@
                != old(ctx)@.clip_last);
            &&& !news ==> r@.len() == 0 && final(ctx)@ == old(ctx)@
            &&& news ==> {
                &&& final(ctx)@ == (NetView { clip_last: current->0@, ..old(ctx)@ })
                &&& is_broadcast(
                    old(ctx)@,
                    r@,
                    old(ctx)@.peers.dom(),
                    json_text(
                        seq![
                            ("type"@, ItemView::Text("clipboard"@)),
                            ("from"@, ItemView::Text(old(ctx)@.identity.node_id)),
                            ("content"@, ItemView::Text(current->0@)),
                        ],
                    ),
                )
            }
        }),
        crate::engine::watch::CLIPBOARD_EVERY_MS == 1000,
{
    let news = old(ctx)@.clip_active && (current matches Some(c) && c@.len() > 0 && c@
        != old(ctx)@.clip_last);
    if news {
        let text = json_text(
            seq![
                ("type"@, ItemView::Text("clipboard"@)),
                ("from"@, ItemView::Text(old(ctx)@.identity.node_id)),
                ("content"@, ItemView::Text(current->0@)),
            ],
        );
        assert(crate::messages::clipboard_fields(
            "clipboard"@,
            old(ctx)@.identity.node_id,
            current->0@,
        ) =~= seq![
            ("type"@, ItemView::Text("clipboard"@)),
            ("from"@, ItemView::Text(old(ctx)@.identity.node_id)),
            ("content"@, ItemView::Text(current->0@)),
        ]);
        old(ctx).peers.law_lists_the_map();
        let ids = old(ctx).peers.keys_spec();
        assert(crate::transport::send::controls_to(final(ctx)@, ids, text)
            =~= crate::transport::send::controls_to(old(ctx)@, ids, text));
        lemma_broadcast(old(ctx)@, r@, ids, text);
    }
}

/// What was synced from a peer or sent once is not sent again while it stays.
pub proof fn law_clipboard_settles(
    ctx: &mut NetCtx,
    again: &mut NetCtx,
    current: Option<String>,
    first: Vec<Outgoing>,
    second: Vec<Outgoing>,
)
    requires
        call_ensures(clipboard_tick, (ctx, current), first),
        old(again)@ == final(ctx)@,
        call_ensures(clipboard_tick, (again, current), second),
    ensures
        second@.len() == 0,
        final(again)@ == final(ctx)@,
{
}

/// A pull asks the peer for its clipboard and waits for the answer under its ticket; a device
/// without a clipboard cannot pull.
pub proof fn law_pull_is_asked_for(
    e: &mut Engine,
    caps: Capabilities,
    node_id: &str,
    ticket: u64,
    r: Result<Outgoing, String>,
)
    requires
        call_ensures(Engine::get_clipboard, (e, caps, node_id, ticket), r),
    ensures
        !caps.clipboard ==> (r matches Err(t) && t@ == "clipboard not supported on this device"@)
            && final(e)@ == old(e)@,
        caps.clipboard ==> {
            &&& r matches Ok(o)
            &&& is_control_to(
                old(e)@.net,
                o@,
                node_id@,
                json_text(
                    seq![
                        ("type"@, ItemView::Text("clipboard_request"@)),
                        ("from"@, ItemView::Text(old(e)@.net.identity.node_id)),
                    ],
                ),
            )
            &&& final(e)@ == (EngineView {
                net: NetView {
                    clip_pending: old(e)@.net.clip_pending.insert(node_id@, ticket),
                    ..old(e)@.net
                },
                ..old(e)@
            })
        },
        PULL_SECS == 6,
{
}

/// A pull that is over, or called off, waits no more. What came is handed out and counts as
/// seen; where nothing came the error says so.
pub proof fn law_pull_ends(
    e: &mut Engine,
    f: &mut Engine,
    node_id: &str,
    answer: Option<String>,
    r: Result<String, String>,
)
    requires
        call_ensures(Engine::finish_pull, (e, node_id, answer), r),
        call_ensures(Engine::cancel_pull, (f, node_id), ()),
    ensures
        answer matches Some(c) ==> {
            &&& r matches Ok(s)
            &&& s@ == c@
            &&& final(e)@ == (EngineView {
                net: NetView {
                    clip_pending: old(e)@.net.clip_pending.remove(node_id@),
                    clip_last: c@,
                    ..old(e)@.net
                },
                ..old(e)@
            })
        },
        answer is None ==> {
            &&& r matches Err(t)
            &&& t@ == "no clipboard response from peer (is it reachable and using the same key?)"@
            &&& final(e)@ == (EngineView {
                net: NetView {
                    clip_pending: old(e)@.net.clip_pending.remove(node_id@),
                    ..old(e)@.net
                },
                ..old(e)@
            })
        },
        final(f)@ == (EngineView {
            net: NetView {
                clip_pending: old(f)@.net.clip_pending.remove(node_id@),
                ..old(f)@.net
            },
            ..old(f)@
        }),
{
}

/// A shared notification goes to every peer with its title, its body and its app.
pub proof fn law_notification_is_shared(
    e: Engine,
    title: &str,
    body: &str,
    app: Option<&str>,
    r: Vec<Outgoing>,
)
    requires
        e.net.peers.wf(),
        call_ensures(Engine::share_notification, (&e, title, body, app), r),
    ensures
        is_broadcast(
            e@.net,
            r@,
            e@.net.peers.dom(),
            json_text(
                seq![
                    ("type"@, ItemView::Text("notification"@)),
                    ("from"@, ItemView::Text(e@.net.identity.node_id)),
                    ("title"@, ItemView::Text(title@)),
                    ("body"@, ItemView::Text(body@)),
                    ("app"@, text_or_null(app)),
                ],
            ),
        ),
{
    let me = e@.net.identity.node_id;
    assert(crate::messages::notification_fields(me, title@, body@, opt_str(app)) =~= seq![
        ("type"@, ItemView::Text("notification"@)),
        ("from"@, ItemView::Text(me)),
        ("title"@, ItemView::Text(title@)),
        ("body"@, ItemView::Text(body@)),
        ("app"@, text_or_null(app)),
    ]);
    e.net.peers.law_lists_the_map();
    lemma_broadcast(
        e@.net,
        r@,
        e.net.peers.keys_spec(),
        crate::messages::notification_text(me, title@, body@, opt_str(app)),
    );
}

/// A shared call goes to every peer with its caller, its number and its state.
pub proof fn law_call_is_shared(
    e: Engine,
    caller: &str,
    number: Option<&str>,
    state: &str,
    r: Vec<Outgoing>,
)
    requires
        e.net.peers.wf(),
        call_ensures(Engine::share_call_notification, (&e, caller, number, state), r),
    ensures
        is_broadcast(
            e@.net,
            r@,
            e@.net.peers.dom(),
            json_text(
                seq![
                    ("type"@, ItemView::Text("call_notification"@)),
                    ("from"@, ItemView::Text(e@.net.identity.node_id)),
                    ("caller"@, ItemView::Text(caller@)),
                    ("number"@, text_or_null(number)),
                    ("state"@, ItemView::Text(state@)),
                ],
            ),
        ),
{
    let me = e@.net.identity.node_id;
    assert(crate::messages::call_fields(me, caller@, opt_str(number), state@) =~= seq![
        ("type"@, ItemView::Text("call_notification"@)),
        ("from"@, ItemView::Text(me)),
        ("caller"@, ItemView::Text(caller@)),
        ("number"@, text_or_null(number)),
        ("state"@, ItemView::Text(state@)),
    ]);
    e.net.peers.law_lists_the_map();
    lemma_broadcast(
        e@.net,
        r@,
        e.net.peers.keys_spec(),
        crate::messages::call_text(me, caller@, opt_str(number), state@),
    );
}

/// Shared call history goes to every peer as the JSON that was given.
pub proof fn law_history_is_shared(e: Engine, entries: &str, r: Vec<Outgoing>)
    requires
        e.net.peers.wf(),
        call_ensures(Engine::share_call_history, (&e, entries), r),
    ensures
        is_broadcast(
            e@.net,
            r@,
            e@.net.peers.dom(),
            json_text(
                seq![
                    ("type"@, ItemView::Text("call_history"@)),
                    ("from"@, ItemView::Text(e@.net.identity.node_id)),
                    ("entries"@, json_or_else(entries@, ItemView::Null)),
                ],
            ),
        ),
{
    let me = e@.net.identity.node_id;
    assert(crate::messages::history_fields(me, entries@) =~= seq![
        ("type"@, ItemView::Text("call_history"@)),
        ("from"@, ItemView::Text(me)),
        ("entries"@, json_or_else(entries@, ItemView::Null)),
    ]);
    e.net.peers.law_lists_the_map();
    lemma_broadcast(
        e@.net,
        r@,
        e.net.peers.keys_spec(),
        crate::messages::history_text(me, entries@),
    );
}

/// A consumer asks a producer for its apps, and subscribes to those it names; a producer
/// keeps the list that its host set.
pub proof fn law_apps_are_asked_for(
    e: Engine,
    f: &mut Engine,
    node_id: &str,
    apps: &str,
    asked: Outgoing,
    subscribed: Outgoing,
)
    requires
        call_ensures(Engine::request_apps, (&e, node_id), asked),
        call_ensures(Engine::subscribe_apps, (&e, node_id, apps), subscribed),
        call_ensures(Engine::set_installed_apps, (f, apps), ()),
    ensures
        is_control_to(
            e@.net,
            asked@,
            node_id@,
            json_text(
                seq![
                    ("type"@, ItemView::Text("apps_request"@)),
                    ("from"@, ItemView::Text(e@.net.identity.node_id)),
                ],
            ),
        ),
        is_control_to(
            e@.net,
            subscribed@,
            node_id@,
            json_text(
                seq![
                    ("type"@, ItemView::Text("subscribe_apps"@)),
                    ("from"@, ItemView::Text(e@.net.identity.node_id)),
                    ("apps"@, json_or_else(apps@, ItemView::Texts(Seq::empty()))),
                ],
            ),
        ),
        final(f)@ == (EngineView {
            net: NetView { installed_apps: apps@, ..old(f)@.net },
            ..old(f)@
        }),
{
    let me = e@.net.identity.node_id;
    assert(crate::messages::subscribe_fields(me, apps@) =~= seq![
        ("type"@, ItemView::Text("subscribe_apps"@)),
        ("from"@, ItemView::Text(me)),
        ("apps"@, json_or_else(apps@, ItemView::Texts(Seq::empty()))),
    ]);
}

/// Those who are subscribed to a package.
pub open spec fn subscribed_to(subs: Map<Seq<char>, Seq<Seq<char>>>, pkg: Seq<char>) -> Set<
    Seq<char>,
> {
    Set::new(|id: Seq<char>| subs.contains_key(id) && subs[id].contains(pkg))
}

/// What a local app posts goes to exactly those who are subscribed to the app, once each, as
/// a notification of that app.
pub proof fn law_app_notification_is_shared(
    e: Engine,
    pkg: &str,
    app: &str,
    title: &str,
    body: &str,
    r: Vec<Outgoing>,
)
    requires
        e.net.subs.wf(),
        call_ensures(Engine::share_app_notification, (&e, pkg, app, title, body), r),
    ensures
        is_broadcast(
            e@.net,
            r@,
            subscribed_to(e@.net.subs, pkg@),
            json_text(
                seq![
                    ("type"@, ItemView::Text("notification"@)),
                    ("from"@, ItemView::Text(e@.net.identity.node_id)),
                    ("title"@, ItemView::Text(title@)),
                    ("body"@, ItemView::Text(body@)),
                    ("app"@, ItemView::Text(app@)),
                ],
            ),
        ),
{
    let me = e@.net.identity.node_id;
    let keys = e.net.subs.keys_spec();
    let to = crate::engine::share::subscribers(keys, e@.net.subs, pkg@, keys.len());
    assert(crate::messages::notification_fields(me, title@, body@, Some(app@)) =~= seq![
        ("type"@, ItemView::Text("notification"@)),
        ("from"@, ItemView::Text(me)),
        ("title"@, ItemView::Text(title@)),
        ("body"@, ItemView::Text(body@)),
        ("app"@, ItemView::Text(app@)),
    ]);
    e.net.subs.law_lists_the_map();
    lemma_subscribers_once(keys, e@.net.subs, pkg@, keys.len());
    lemma_broadcast(
        e@.net,
        r@,
        to,
        crate::messages::notification_text(me, title@, body@, Some(app@)),
    );
    assert forall|id: Seq<char>| to.to_set().contains(id) <==> subscribed_to(
        e@.net.subs,
        pkg@,
    ).contains(id) by {
        crate::engine::share::law_notification_reaches_subscribers(e, pkg@, id);
        assert(to.to_set().contains(id) <==> to.contains(id));
    }
    assert(to.to_set() =~= subscribed_to(e@.net.subs, pkg@));
}

proof fn lemma_subscribers_once(
    keys: Seq<Seq<char>>,
    subs: Map<Seq<char>, Seq<Seq<char>>>,
    pkg: Seq<char>,
    n: nat,
)
    requires
        n <= keys.len(),
        keys.no_duplicates(),
    ensures
        crate::engine::share::subscribers(keys, subs, pkg, n).no_duplicates(),
        forall|id: Seq<char>| #[trigger]
            crate::engine::share::subscribers(keys, subs, pkg, n).contains(id) ==> keys.take(
                n as int,
            ).contains(id),
    decreases n,
{
    if n > 0 {
        lemma_subscribers_once(keys, subs, pkg, (n - 1) as nat);
        let before = crate::engine::share::subscribers(keys, subs, pkg, (n - 1) as nat);
        let after = crate::engine::share::subscribers(keys, subs, pkg, n);
        let last = keys[n - 1];
        assert(!before.contains(last)) by {
            if before.contains(last) {
                let k = keys.take(n - 1).index_of(last);
                assert(keys[k] == last);
            }
        }
        assert forall|id: Seq<char>| #[trigger] after.contains(id) implies keys.take(
            n as int,
        ).contains(id) by {
            let k = after.index_of(id);
            if k < before.len() {
                assert(before[k] == id);
                assert(before.contains(id));
                let j = keys.take(n - 1).index_of(id);
                assert(keys.take(n as int)[j] == id);
            } else {
                assert(keys.take(n as int)[n - 1] == last);
            }
        }
    }
}

/// A device goes by the address that it has; without one it keeps the last.
pub proof fn law_address_is_watched(ctx: &mut NetCtx, current: String)
    requires
        call_ensures(network_tick, (ctx, current), ()),
    ensures
        current@ == "0.0.0.0"@ ==> final(ctx)@ == old(ctx)@,
        current@ != "0.0.0.0"@ ==> final(ctx)@ == (NetView {
            identity: IdentityView { ip: current@, ..old(ctx)@.identity },
            ..old(ctx)@
        }),
        crate::engine::watch::NETWORK_EVERY_SECS == 5,
        crate::engine::watch::HEARTBEAT_EVERY_SECS == 5,
{
}

/// A heartbeat drops every link but a WebSocket that was silent for more than fifteen
/// seconds, and says so; it pings every other link but a WebSocket; it does nothing else.
pub proof fn law_heartbeat_pings_and_drops(
    ctx: &mut NetCtx,
    now: u64,
    r: Vec<Effect>,
    id: Seq<char>,
)
    requires
        old(ctx).p2p_conns.wf(),
        call_ensures(heartbeat_tick, (ctx, now), r),
    ensures
        final(ctx)@ == (NetView { p2p_conns: final(ctx)@.p2p_conns, ..old(ctx)@ }),
        effects(r@).no_duplicates(),
        ({
            let was = old(ctx)@.p2p_conns.contains_key(id);
            let c = old(ctx)@.p2p_conns[id];
            let silent = c.kind != TransportKind::Ws && now > c.last_seen + 15;
            let gone = EffectView::Emit(EventView::PeerDisconnected { node_id: id });
            &&& final(ctx)@.p2p_conns.contains_key(id) <==> was && !silent
            &&& was && !silent ==> final(ctx)@.p2p_conns[id] == c
            &&& effects(r@).contains(gone) <==> was && silent
            &&& was && !silent && c.kind != TransportKind::Ws ==> exists|o: OutgoingView|
                #[trigger] effects(r@).contains(EffectView::Send(o)) && is_control_to(
                    old(ctx)@,
                    o,
                    id,
                    json_text(
                        seq![
                            ("type"@, ItemView::Text("p2p_ping"@)),
                            ("from"@, ItemView::Text(old(ctx)@.identity.node_id)),
                        ],
                    ),
                )
            &&& forall|o: OutgoingView|
                #[trigger] effects(r@).contains(EffectView::Send(o)) && o.node_id == id ==> was
                    && !silent && c.kind != TransportKind::Ws
        }),
{
    old(ctx).p2p_conns.law_lists_the_map();
    let net = old(ctx)@;
    let ids = old(ctx).p2p_conns.keys_spec();
    let out = effects(r@);
    let c = net.p2p_conns[id];
    let was = net.p2p_conns.contains_key(id);
    let ping = crate::transport::send::control_to(
        net,
        id,
        crate::messages::bare_text("p2p_ping"@, net.identity.node_id),
    );
    assert(ids.to_set().contains(id) <==> ids.contains(id));
    assert(was <==> ids.contains(id));
    assert(ids.take(ids.len() as int) =~= ids);
    lemma_beat_members(net, ids, now, ids.len(), id);
    lemma_beats_once(net, ids, now, ids.len());
    if was && c.kind != TransportKind::Ws && !(now > c.last_seen + 15) {
        assert(out.contains(EffectView::Send(ping)));
    }
}

/// The peer that a heartbeat's effect is about.
spec fn about(e: EffectView) -> Seq<char> {
    match e {
        EffectView::Emit(EventView::PeerDisconnected { node_id }) => node_id,
        EffectView::Send(o) => o.node_id,
        _ => Seq::empty(),
    }
}

proof fn lemma_beats_once(net: NetView, ids: Seq<Seq<char>>, now: u64, n: nat)
    requires
        n <= ids.len(),
        ids.no_duplicates(),
    ensures
        crate::engine::watch::beats(net, ids, now, n).no_duplicates(),
        forall|i: int|
            0 <= i < crate::engine::watch::beats(net, ids, now, n).len() ==> ids.take(
                n as int,
            ).contains(about(#[trigger] crate::engine::watch::beats(net, ids, now, n)[i])),
    decreases n,
{
    if n > 0 {
        lemma_beats_once(net, ids, now, (n - 1) as nat);
        let before = crate::engine::watch::beats(net, ids, now, (n - 1) as nat);
        let out = crate::engine::watch::beats(net, ids, now, n);
        let last = ids[n - 1];
        assert forall|i: int| 0 <= i < before.len() implies about(#[trigger] before[i]) != last
            && ids.take(n as int).contains(about(before[i])) by {
            let k = ids.take(n - 1).index_of(about(before[i]));
            assert(ids.take(n - 1)[k] == about(before[i]));
            assert(ids[k] == about(before[i]));
            assert(ids.take(n as int)[k] == about(before[i]));
        }
        assert(ids.take(n as int)[n - 1] == last);
        if let Some(e) = crate::engine::watch::beat(net, last, now) {
            assert(about(e) == last);
            assert(out == before.push(e));
        }
    }
}

proof fn lemma_beat_members(net: NetView, ids: Seq<Seq<char>>, now: u64, n: nat, id: Seq<char>)
    requires
        n <= ids.len(),
    ensures
        ({
            let out = crate::engine::watch::beats(net, ids, now, n);
            let c = net.p2p_conns[id];
            let silent = c.kind != TransportKind::Ws && now > c.last_seen + 15;
            let seen = ids.take(n as int).contains(id);
            let ping = crate::transport::send::control_to(
                net,
                id,
                crate::messages::bare_text("p2p_ping"@, net.identity.node_id),
            );
            &&& out.contains(EffectView::Emit(EventView::PeerDisconnected { node_id: id })) <==> seen
                && silent
            &&& seen && !silent && c.kind != TransportKind::Ws ==> out.contains(
                EffectView::Send(ping),
            )
            &&& forall|o: OutgoingView|
                #[trigger] out.contains(EffectView::Send(o)) && o.node_id == id ==> seen && !silent
                    && c.kind != TransportKind::Ws
        }),
    decreases n,
{
    let out = crate::engine::watch::beats(net, ids, now, n);
    let gone = EffectView::Emit(EventView::PeerDisconnected { node_id: id });
    let ping = crate::transport::send::control_to(
        net,
        id,
        crate::messages::bare_text("p2p_ping"@, net.identity.node_id),
    );
    if n > 0 {
        lemma_beat_members(net, ids, now, (n - 1) as nat, id);
        let before = crate::engine::watch::beats(net, ids, now, (n - 1) as nat);
        let last = ids[n - 1];
        let prev = ids.take(n - 1);
        let all = ids.take(n as int);
        assert(all =~= prev.push(last));
        if prev.contains(id) {
            let k = prev.index_of(id);
            assert(all[k] == id);
        }
        assert(all[n - 1] == last);
        if all.contains(id) && id != last {
            let k = all.index_of(id);
            assert(prev[k] == id);
        }
        assert forall|e: EffectView| before.contains(e) implies #[trigger] out.contains(e) by {
            let k = before.index_of(e);
            assert(out[k] == e);
        }
        match crate::engine::watch::beat(net, last, now) {
            Some(e) => {
                assert(out[out.len() - 1] == e);
                assert forall|x: EffectView| #[trigger] out.contains(x) implies before.contains(x)
                    || x == e by {
                    let k = out.index_of(x);
                    if k < before.len() {
                        assert(before[k] == x);
                    }
                }
            },
            None => {},
        }
    }
}

} // verus!
