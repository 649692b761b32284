//! The peers that a device knows, and where what it sends them goes.

use vstd::prelude::*;

use crate::discovery::{beacon, lan_targets, mcast_group, on_beacon};
use crate::engine::peers::{law_refresh, with_devices, without_registry};
use crate::engine::{Engine, EngineView, NetCtx, NetView};
use crate::events::{effects, peers_view, Effect, EffectView, EventView};
use crate::json::ItemView;
use crate::model::{Beacon, Envelope, Identity, IdentityView, Peer, PeerView, Source};
use crate::net::{dotted, law_ipv4_round_trip, Endpoint, Ipv4};
use crate::platform::IfaceMode;
use crate::registry::{base_spec, HttpRequest, Method, RegistryDevice};
use crate::text::{opt_str, trimmed};
use crate::transport::send::{route_over, Dispatch, DispatchView};

verus! {

/// Whether the UI is told of just these peers, each once.
pub open spec fn tells_peers(list: Seq<EffectView>, peers: Map<Seq<char>, PeerView>) -> bool {
    &&& list.len() == 1
    &&& list[0] matches EffectView::Emit(EventView::PeersUpdated { peers: shown })
    &&& shown.len() == peers.len()
    &&& forall|id: Seq<char>| peers.contains_key(id) ==> shown.contains(#[trigger] peers[id])
    &&& forall|p: PeerView| #[trigger]
        shown.contains(p) ==> exists|id: Seq<char>| #[trigger]
            peers.contains_key(id) && peers[id] == p
}

pub proof fn lemma_tells_peers(ctx: NetCtx)
    requires
        ctx.peers.wf(),
    ensures
        tells_peers(crate::discovery::peers_updated(ctx), ctx@.peers),
{
    crate::discovery::law_peers_updated_lists_all(ctx);
    let shown = ctx.peers.values_spec();
    assert forall|p: PeerView| #[trigger] shown.contains(p) implies exists|id: Seq<char>| #[trigger]
        ctx@.peers.contains_key(id) && ctx@.peers[id] == p by {
        let i = shown.index_of(p);
        let id = ctx.peers.keys_spec()[i];
        assert(ctx.peers.values_spec()[i] == shown[i]);
        assert(ctx@.peers.contains_key(id) && ctx@.peers[id] == shown[i]);
    }
}

/// A beacon says of a device what the device is.
pub proof fn law_beacon_says_who(id: Identity, reply: bool, b: Beacon)
    requires
        call_ensures(beacon, (&id, reply), b),
    ensures
        b@.node_id == id@.node_id,
        b@.name == id@.name,
        b@.tcp_port == id@.tcp_port,
        b@.udp_port == id@.udp_port,
        b@.ws_port == id@.ws_port,
        b@.reply == reply,
{
}

/// The sender of a beacon is known afterwards by the address that it came from and with every
/// port that it named, and the other peers are as they were. An announcement is answered and
/// a reply is not. Our own beacon does nothing.
pub proof fn law_beacon_is_recorded(
    ctx: &mut NetCtx,
    b: Beacon,
    ip: String,
    r: Option<(Vec<Effect>, bool)>,
)
    requires
        call_ensures(on_beacon, (ctx, b, ip), r),
    ensures
        r is None <==> b@.node_id == old(ctx)@.identity.node_id,
        r is None ==> final(ctx)@ == old(ctx)@,
        r matches Some(t) ==> {
            let p = final(ctx)@.peers[b@.node_id];
            &&& t.1 == !b@.reply
            &&& final(ctx)@ == (NetView { peers: old(ctx)@.peers.insert(b@.node_id, p), ..old(
                ctx,
            )@ })
            &&& p.node_id == b@.node_id
            &&& p.name == b@.name
            &&& p.ip == ip@
            &&& p.tcp_port == b@.tcp_port
            &&& p.udp_port == b@.udp_port
            &&& p.ws_port == b@.ws_port
            &&& p.source == Source::Lan
            &&& !p.ws_open && !p.inbound_blocked
            &&& p.reflexive_ip is None && p.reflexive_udp_port is None
            &&& final(ctx).peers.wf() ==> tells_peers(effects(t.0@), final(ctx)@.peers)
        },
{
    if final(ctx).peers.wf() {
        lemma_tells_peers(*final(ctx));
    }
}

/// One announcement makes two devices known to each other with all their endpoints: the one
/// that hears it answers, the answer is not answered again, and from then on what either
/// sends over UDP or TCP to the other goes to the port that the other listens on.
pub proof fn law_scan_finds_endpoints(
    a: &mut NetCtx,
    b: &mut NetCtx,
    ip_a: Ipv4,
    ip_b: Ipv4,
    text_a: String,
    text_b: String,
    hello: Beacon,
    reply: Beacon,
    at_b: Option<(Vec<Effect>, bool)>,
    at_a: Option<(Vec<Effect>, bool)>,
)
    requires
        old(a)@.identity.node_id != old(b)@.identity.node_id,
        text_a@ == dotted(ip_a),
        text_b@ == dotted(ip_b),
        call_ensures(beacon, (&old(a).identity, false), hello),
        call_ensures(on_beacon, (b, hello, text_a), at_b),
        call_ensures(beacon, (&old(b).identity, true), reply),
        call_ensures(on_beacon, (a, reply, text_b), at_a),
    ensures
        at_b matches Some(t) && t.1,
        at_a matches Some(t) && !t.1,
        knows(final(b)@, old(a)@.identity, ip_a),
        knows(final(a)@, old(b)@.identity, ip_b),
{
}

/// Whether a device knows another, as it is, at an address.
pub open spec fn knows(net: NetView, id: IdentityView, ip: Ipv4) -> bool {
    &&& net.peers.contains_key(id.node_id)
    &&& net.peers[id.node_id].node_id == id.node_id
    &&& net.peers[id.node_id].name == id.name
    &&& net.peers[id.node_id].ip == dotted(ip)
    &&& net.peers[id.node_id].tcp_port == id.tcp_port
    &&& net.peers[id.node_id].udp_port == id.udp_port
    &&& net.peers[id.node_id].ws_port == id.ws_port
}

/// What goes to a known device over UDP or TCP goes to the port that it listens on.
pub proof fn law_known_device_is_reached(
    ctx: NetCtx,
    id: IdentityView,
    ip: Ipv4,
    node_id: &str,
    proto: &str,
    env: Envelope,
    r: Result<Dispatch, String>,
)
    requires
        knows(ctx@, id, ip),
        node_id@ == id.node_id,
        call_ensures(route_over, (&ctx, node_id, proto, env), r),
    ensures
        proto@ == "UDP"@ ==> (r matches Ok(d) && d@ == (DispatchView::Udp {
            to: Endpoint { ip, port: id.udp_port },
            env: env@,
        })),
        proto@ == "TCP"@ ==> (r matches Ok(d) && d@ == (DispatchView::Tcp {
            to: Endpoint { ip, port: id.tcp_port },
            env: env@,
        })),
{
    law_ipv4_round_trip(ip);
    reveal_strlit("UDP");
    reveal_strlit("TCP");
    reveal_strlit("WS");
    assert("UDP"@.len() == 3 && "TCP"@.len() == 3 && "WS"@.len() == 2);
    assert("UDP"@[0] == 'U' && "TCP"@[0] == 'T');
}

/// Whether an address is one that a LAN announcement goes to from these interfaces: the
/// multicast group, everyone, and of every interface that is neither loopback nor none each
/// host of its /24 but the interface itself, and the broadcast address of the /24.
pub open spec fn announced_to(addrs: Seq<Ipv4>, ip: Ipv4) -> bool {
    ||| ip == (Ipv4 { a: 239, b: 255, c: 42, d: 98 })
    ||| ip == (Ipv4 { a: 255, b: 255, c: 255, d: 255 })
    ||| exists|i: int|
        0 <= i < addrs.len() && swept(#[trigger] addrs[i], ip)
}

pub open spec fn swept(iface: Ipv4, ip: Ipv4) -> bool {
    &&& iface.a != 127
    &&& iface != (Ipv4 { a: 0, b: 0, c: 0, d: 0 })
    &&& ip.a == iface.a && ip.b == iface.b && ip.c == iface.c
    &&& ip.d == 255 || (1 <= ip.d <= 254 && ip.d != iface.d)
}

proof fn lemma_iface_targets(iface: Ipv4, e: Endpoint)
    ensures
        crate::discovery::iface_targets(iface).contains(e) <==> e.port == 45678 && swept(
            iface,
            e.ip,
        ),
{
    crate::discovery::law_sweep_reaches_every_other_host(iface, e);
    let all = crate::discovery::iface_targets(iface);
    if iface.a != 127 && iface != (Ipv4 { a: 0, b: 0, c: 0, d: 0 }) {
        let first = Endpoint {
            ip: Ipv4 { a: iface.a, b: iface.b, c: iface.c, d: 255 },
            port: 45678,
        };
        let rest = crate::discovery::sweep_hosts(iface, 254);
        assert(all =~= seq![first] + rest);
        assert(all[0] == first);
        if rest.contains(e) {
            let k = rest.index_of(e);
            assert(all[k + 1] == e);
        }
        if all.contains(e) && e != first {
            let k = all.index_of(e);
            assert(rest[k - 1] == e);
        }
    }
}

proof fn lemma_ifaces_targets(addrs: Seq<Ipv4>, n: nat, e: Endpoint)
    requires
        n <= addrs.len(),
    ensures
        crate::discovery::ifaces_targets(addrs, n).contains(e) <==> e.port == 45678 && exists|i: int|
            0 <= i < n && swept(#[trigger] addrs[i], e.ip),
    decreases n,
{
    if n > 0 {
        lemma_ifaces_targets(addrs, (n - 1) as nat, e);
        lemma_iface_targets(addrs[n - 1], e);
        let before = crate::discovery::ifaces_targets(addrs, (n - 1) as nat);
        let last = crate::discovery::iface_targets(addrs[n - 1]);
        let all = crate::discovery::ifaces_targets(addrs, n);
        assert(all =~= before + last);
        if before.contains(e) {
            let k = before.index_of(e);
            assert(all[k] == e);
        }
        if last.contains(e) {
            let k = last.index_of(e);
            assert(all[before.len() + k] == e);
            assert(swept(addrs[n - 1], e.ip));
        }
        if all.contains(e) && !before.contains(e) {
            let k = all.index_of(e);
            if k < before.len() {
                assert(before[k] == e);
            }
            assert(last[k - before.len()] == e);
        }
    }
}

proof fn lemma_lan_targets(addrs: Seq<Ipv4>, e: Endpoint)
    ensures
        crate::discovery::lan_targets_spec(addrs).contains(e) <==> e.port == 45678 && announced_to(
            addrs,
            e.ip,
        ),
{
    lemma_ifaces_targets(addrs, addrs.len(), e);
    let all = crate::discovery::lan_targets_spec(addrs);
    let rest = crate::discovery::ifaces_targets(addrs, addrs.len());
    let first = Endpoint { ip: Ipv4 { a: 239, b: 255, c: 42, d: 98 }, port: 45678 };
    let second = Endpoint { ip: Ipv4 { a: 255, b: 255, c: 255, d: 255 }, port: 45678 };
    assert(all =~= seq![first, second] + rest);
    assert(all[0] == first && all[1] == second);
    if rest.contains(e) {
        let k = rest.index_of(e);
        assert(all[k + 2] == e);
    }
    if all.contains(e) && e != first && e != second {
        let k = all.index_of(e);
        assert(rest[k - 2] == e);
    }
}

/// A LAN announcement goes to the discovery port of exactly these.
pub proof fn law_announcement_reaches(mode: IfaceMode, r: Vec<Endpoint>, e: Endpoint)
    requires
        call_ensures(lan_targets, (&mode,), r),
    ensures
        r@.contains(e) <==> e.port == 45678 && announced_to(
            match mode {
                IfaceMode::All { v4_addrs } => v4_addrs@,
                IfaceMode::Single(ip) => seq![ip],
            },
            e.ip,
        ),
{
    lemma_lan_targets(mode.addrs(), e);
}

/// The multicast group of the announcements.
pub proof fn law_multicast_group(r: Ipv4)
    requires
        call_ensures(mcast_group, (), r),
    ensures
        r == (Ipv4 { a: 239, b: 255, c: 42, d: 98 }),
        crate::discovery::DISCOVERY_PORT == 45678,
        crate::engine::DISCO_PORT == 45678,
        crate::engine::peers::SCAN_ROUNDS == 3,
        crate::engine::peers::SCAN_EVERY_MS == 700,
{
}

/// A scan announces this device, and asks for an answer.
pub proof fn law_scan_announces_us(e: Engine, mode: IfaceMode, r: (Beacon, Vec<Endpoint>), to: Endpoint)
    requires
        call_ensures(Engine::scan_lan, (&e, &mode), r),
    ensures
        r.0@.node_id == e@.net.identity.node_id,
        r.0@.name == e@.net.identity.name,
        r.0@.tcp_port == e@.net.identity.tcp_port,
        r.0@.udp_port == e@.net.identity.udp_port,
        r.0@.ws_port == e@.net.identity.ws_port,
        !r.0@.reply,
        r.1@.contains(to) <==> to.port == 45678 && announced_to(
            match mode {
                IfaceMode::All { v4_addrs } => v4_addrs@,
                IfaceMode::Single(ip) => seq![ip],
            },
            to.ip,
        ),
{
    lemma_lan_targets(mode.addrs(), to);
}

/// Whether a peer is just what the registry says of a device.
pub open spec fn as_listed(p: PeerView, d: RegistryDevice) -> bool {
    &&& p.node_id == d.node_id@
    &&& p.name == d.name@
    &&& p.ip == d.ip@
    &&& p.tcp_port == d.tcp_port
    &&& p.udp_port == d.udp_port
    &&& p.ws_port == d.ws_port
    &&& p.source == Source::Registry
    &&& p.ws_open == d.ws_open
    &&& p.inbound_blocked == d.inbound_blocked
    &&& p.reflexive_ip is Some <==> d.reflexive_ip is Some
    &&& p.reflexive_ip matches Some(ip) ==> (d.reflexive_ip matches Some(t) && t@ == ip)
    &&& p.reflexive_udp_port == d.reflexive_udp_port
}

proof fn lemma_last_entry(
    peers: Map<Seq<char>, PeerView>,
    devices: Seq<RegistryDevice>,
    n: nat,
    k: int,
)
    requires
        0 <= k < n <= devices.len(),
        forall|j: int| k < j < n ==> (#[trigger] devices[j]).node_id@ != devices[k].node_id@,
    ensures
        with_devices(peers, devices, n).contains_key(devices[k].node_id@),
        as_listed(with_devices(peers, devices, n)[devices[k].node_id@], devices[k]),
    decreases n,
{
    if k < n - 1 {
        lemma_last_entry(peers, devices, (n - 1) as nat, k);
        assert(devices[n - 1].node_id@ != devices[k].node_id@);
    }
}

/// After a refresh each node that the registry lists is known just as its last entry says,
/// field by field; a node that it does not list is known only if it was found on the LAN or
/// added by hand, and then as before; and the UI is told.
pub proof fn law_refresh_takes_over_the_list(
    e: &mut Engine,
    devices: Vec<RegistryDevice>,
    r: Vec<Effect>,
    k: int,
    id: Seq<char>,
)
    requires
        call_ensures(Engine::apply_registry_peers, (e, devices), r),
    ensures
        final(e)@ == (EngineView {
            net: NetView { peers: final(e)@.net.peers, ..old(e)@.net },
            ..old(e)@
        }),
        0 <= k < devices@.len() && (forall|j: int|
            k < j < devices@.len() ==> (#[trigger] devices@[j]).node_id@ != devices@[k].node_id@) ==> {
            &&& final(e)@.net.peers.contains_key(devices@[k].node_id@)
            &&& as_listed(final(e)@.net.peers[devices@[k].node_id@], devices@[k])
        },
        (forall|j: int| 0 <= j < devices@.len() ==> (#[trigger] devices@[j]).node_id@ != id) ==> {
            &&& final(e)@.net.peers.contains_key(id) <==> old(e)@.net.peers.contains_key(id)
                && old(e)@.net.peers[id].source != Source::Registry
            &&& final(e)@.net.peers.contains_key(id) ==> final(e)@.net.peers[id]
                == old(e)@.net.peers[id]
        },
        final(e).net.peers.wf() ==> tells_peers(effects(r@), final(e)@.net.peers),
{
    if 0 <= k < devices@.len() && (forall|j: int|
        k < j < devices@.len() ==> (#[trigger] devices@[j]).node_id@ != devices@[k].node_id@) {
        lemma_last_entry(
            without_registry(old(e)@.net.peers),
            devices@,
            devices@.len(),
            k,
        );
    }
    law_refresh(old(e)@.net.peers, devices@, id);
    if final(e).net.peers.wf() {
        lemma_tells_peers(final(e).net);
    }
}

/// A peer that is added by hand is known by its address, at that address and with the ports
/// given, under the name given or else its address; what is no address is refused.
pub proof fn law_manual_peer_is_added(
    e: &mut Engine,
    name: &str,
    ip: &str,
    tcp_port: u16,
    udp_port: u16,
    ws_port: u16,
    a: Ipv4,
    r: Result<Vec<Effect>, String>,
)
    requires
        call_ensures(Engine::add_manual_peer, (e, name, ip, tcp_port, udp_port, ws_port), r),
    ensures
        r is Err ==> final(e)@ == old(e)@,
        r matches Err(t) ==> t@ == "invalid IPv4: "@ + ip@,
        trimmed(ip@) == dotted(a) ==> {
            let id = "manual:"@ + dotted(a);
            let p = final(e)@.net.peers[id];
            &&& r matches Ok(list)
            &&& final(e).net.peers.wf() ==> tells_peers(effects(list@), final(e)@.net.peers)
            &&& final(e)@ == (EngineView {
                net: NetView { peers: old(e)@.net.peers.insert(id, p), ..old(e)@.net },
                ..old(e)@
            })
            &&& p.node_id == id
            &&& p.ip == dotted(a)
            &&& p.tcp_port == tcp_port
            &&& p.udp_port == udp_port
            &&& p.ws_port == ws_port
            &&& p.source == Source::Manual
            &&& p.name == if trimmed(name@).len() > 0 {
                trimmed(name@)
            } else {
                dotted(a)
            }
            &&& !p.ws_open && !p.inbound_blocked
            &&& p.reflexive_ip is None && p.reflexive_udp_port is None
        },
        (forall|x: Ipv4| #[trigger] dotted(x) != trimmed(ip@)) ==> r is Err,
{
    if trimmed(ip@) == dotted(a) {
        law_ipv4_round_trip(a);
        if final(e).net.peers.wf() {
            lemma_tells_peers(final(e).net);
        }
    }
}

/// A peer that is removed is known no more, and every other as before.
pub proof fn law_peer_is_removed(e: &mut Engine, node_id: &str, r: Vec<Effect>)
    requires
        call_ensures(Engine::remove_peer, (e, node_id), r),
    ensures
        final(e)@ == (EngineView {
            net: NetView { peers: old(e)@.net.peers.remove(node_id@), ..old(e)@.net },
            ..old(e)@
        }),
        final(e).net.peers.wf() ==> tells_peers(effects(r@), final(e)@.net.peers),
{
    if final(e).net.peers.wf() {
        lemma_tells_peers(final(e).net);
    }
}

/// After a change of network the device goes by the address given, where it is one, and else
/// by the one that the host has; all else stays, and a device with a session registers anew.
pub proof fn law_network_change(
    e: &mut Engine,
    new_ip: Option<&str>,
    local_ip: String,
    a: Ipv4,
    r: bool,
)
    requires
        call_ensures(Engine::network_changed, (e, new_ip, local_ip), r),
    ensures
        r <==> old(e)@.token is Some,
        final(e)@ == (EngineView {
            net: NetView {
                identity: IdentityView {
                    ip: final(e)@.net.identity.ip,
                    ..old(e)@.net.identity
                },
                ..old(e)@.net
            },
            ..old(e)@
        }),
        new_ip is None ==> final(e)@.net.identity.ip == local_ip@,
        new_ip matches Some(s) ==> {
            &&& s@ == dotted(a) ==> final(e)@.net.identity.ip == s@
            &&& (forall|x: Ipv4| #[trigger] dotted(x) != s@) ==> final(e)@.net.identity.ip
                == local_ip@
        },
{
    law_ipv4_round_trip(a);
}

/// A refresh tells the registry of this device, with its address and ports, and then asks it
/// for all others.
pub proof fn law_refresh_requests(
    e: Engine,
    fcm_token: Option<&str>,
    platform: &str,
    r: Result<(HttpRequest, HttpRequest), String>,
)
    requires
        call_ensures(Engine::refresh_from_server, (&e, fcm_token, platform), r),
    ensures
        r is Ok <==> e@.server_url is Some && e@.token is Some,
        r matches Err(t) ==> t@ == "not logged in"@,
        r matches Ok(t) ==> {
            let id = e@.net.identity;
            &&& crate::laws::signals::posts(
                t.0,
                e@.server_url->0,
                "/devices/register"@,
                e@.token->0,
                seq![
                    ("node_id"@, ItemView::Text(id.node_id)),
                    ("name"@, ItemView::Text(id.name)),
                    ("ip"@, ItemView::Text(id.ip)),
                    ("tcp_port"@, ItemView::Number(id.tcp_port as u64)),
                    ("udp_port"@, ItemView::Number(id.udp_port as u64)),
                    ("ws_port"@, ItemView::Number(id.ws_port as u64)),
                    (
                        "fcm_token"@,
                        match fcm_token {
                            Some(s) => ItemView::Text(s@),
                            None => ItemView::Null,
                        },
                    ),
                    ("platform"@, ItemView::Text(platform@)),
                    ("supports_ipv6"@, ItemView::Flag(false)),
                ],
            )
            &&& t.1@.method == Method::Get
            &&& t.1@.url == base_spec(e@.server_url->0) + "/devices?exclude="@ + id.node_id
            &&& t.1@.authorization == Some("Bearer "@ + e@.token->0)
            &&& t.1@.body is None
            &&& t.1@.timeout_secs == 10
        },
{
    if let Ok(t) = r {
        let id = e@.net.identity;
        assert(crate::registry::registration(id, opt_str(fcm_token), platform@, false) =~= seq![
            ("node_id"@, ItemView::Text(id.node_id)),
            ("name"@, ItemView::Text(id.name)),
            ("ip"@, ItemView::Text(id.ip)),
            ("tcp_port"@, ItemView::Number(id.tcp_port as u64)),
            ("udp_port"@, ItemView::Number(id.udp_port as u64)),
            ("ws_port"@, ItemView::Number(id.ws_port as u64)),
            (
                "fcm_token"@,
                match fcm_token {
                    Some(s) => ItemView::Text(s@),
                    None => ItemView::Null,
                },
            ),
            ("platform"@, ItemView::Text(platform@)),
            ("supports_ipv6"@, ItemView::Flag(false)),
        ]);
    }
}

/// What is told of the peers is what is known of them.
pub proof fn law_peers_are_shown(
    e: Engine,
    id: Seq<char>,
    me: Identity,
    all: Vec<Peer>,
    live: Vec<String>,
)
    requires
        call_ensures(Engine::identity, (&e,), me),
        call_ensures(Engine::get_peers, (&e,), all),
        call_ensures(Engine::connected_peers, (&e,), live),
    ensures
        me@ == e@.net.identity,
        all@.len() == e@.net.peers.len(),
        e@.net.peers.contains_key(id) ==> exists|i: int|
            0 <= i < all@.len() && (#[trigger] all@[i])@ == e@.net.peers[id],
        e@.net.p2p_conns.contains_key(id) <==> exists|i: int|
            0 <= i < live@.len() && (#[trigger] live@[i])@ == id,
{
    let shown = peers_view(all@);
    if e@.net.peers.contains_key(id) {
        let i = shown.index_of(e@.net.peers[id]);
        assert(shown.contains(e@.net.peers[id]));
        assert(all@[i]@ == shown[i]);
    }
    let names = crate::text::texts(live@);
    if e@.net.p2p_conns.contains_key(id) {
        assert(names.to_set().contains(id));
        let i = names.index_of(id);
        assert(live@[i]@ == names[i]);
    }
    if exists|i: int| 0 <= i < live@.len() && (#[trigger] live@[i])@ == id {
        let i = choose|i: int| 0 <= i < live@.len() && (#[trigger] live@[i])@ == id;
        assert(names[i] == id);
        assert(names.to_set().contains(id));
    }
}

} // verus!
