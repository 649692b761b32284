//! LAN discovery: UDP multicast + broadcast + /24 unicast sweep beacons.

use vstd::prelude::*;

use crate::engine::{NetCtx, NetView};
use crate::events::{effects, one_effect, peers_view, CoreEvent, Effect, EffectView, EventView};
use crate::model::{Beacon, BeaconView, Identity, IdentityView, Peer, PeerView, Source};
use crate::net::{Endpoint, Ipv4};
use crate::platform::IfaceMode;
use crate::text::same_text;

verus! {

/// The multicast group that beacons are sent to.
pub open spec fn mcast_group_spec() -> Ipv4 {
    Ipv4 { a: 239, b: 255, c: 42, d: 98 }
}

pub open spec fn broadcast_spec() -> Ipv4 {
    Ipv4 { a: 255, b: 255, c: 255, d: 255 }
}

pub const DISCOVERY_PORT: u16 = 45678;

pub open spec fn at_discovery_port(ip: Ipv4) -> Endpoint {
    Endpoint { ip, port: DISCOVERY_PORT }
}

/// The hosts 1 to `n` of the /24 around `ip`, without `ip` itself.
pub open spec fn sweep_hosts(ip: Ipv4, n: nat) -> Seq<Endpoint>
    decreases n,
{
    if n == 0 {
        Seq::empty()
    } else {
        let before = sweep_hosts(ip, (n - 1) as nat);
        if n == ip.d {
            before
        } else {
            before.push(at_discovery_port(Ipv4 { a: ip.a, b: ip.b, c: ip.c, d: n as u8 }))
        }
    }
}

/// The targets for one interface: subnet broadcast, then every other host. None for
/// a loopback or unspecified address.
pub open spec fn iface_targets(ip: Ipv4) -> Seq<Endpoint> {
    if ip.a == 127 || ip == (Ipv4 { a: 0, b: 0, c: 0, d: 0 }) {
        Seq::empty()
    } else {
        seq![at_discovery_port(Ipv4 { a: ip.a, b: ip.b, c: ip.c, d: 255 })] + sweep_hosts(ip, 254)
    }
}

/// The targets for the first `n` interfaces, one after the other.
pub open spec fn ifaces_targets(addrs: Seq<Ipv4>, n: nat) -> Seq<Endpoint>
    decreases n,
{
    if n == 0 {
        Seq::empty()
    } else {
        ifaces_targets(addrs, (n - 1) as nat) + iface_targets(addrs[n - 1])
    }
}

/// Multicast, global broadcast, then each interface.
pub open spec fn lan_targets_spec(addrs: Seq<Ipv4>) -> Seq<Endpoint> {
    seq![at_discovery_port(mcast_group_spec()), at_discovery_port(broadcast_spec())] + ifaces_targets(
        addrs,
        addrs.len(),
    )
}

/// The multicast group that beacons are sent to.
pub fn mcast_group() -> (r: Ipv4)
    ensures
        r == mcast_group_spec(),
{
    Ipv4::new(239, 255, 42, 98)
}

fn push_iface_targets(v: &mut Vec<Endpoint>, ip: Ipv4)
    ensures
        final(v)@ == old(v)@ + iface_targets(ip),
{
    if ip.is_loopback() || ip.is_unspecified() {
        assert(v@ =~= old(v)@ + iface_targets(ip));
        return ;
    }
    let ghost start = v@;
    v.push(Endpoint::new(Ipv4::new(ip.a, ip.b, ip.c, 255), DISCOVERY_PORT));
    let ghost base = v@;
    let mut host: u8 = 1;
    while host < 255
        invariant
            1 <= host <= 255,
            v@ == base + sweep_hosts(ip, (host - 1) as nat),
        decreases 255 - host,
    {
        if host != ip.d {
            v.push(Endpoint::new(Ipv4::new(ip.a, ip.b, ip.c, host), DISCOVERY_PORT));
        }
        assert(v@ =~= base + sweep_hosts(ip, host as nat));
        host = host + 1;
    }
    assert(v@ =~= start + iface_targets(ip));
}

/// Targets for a LAN announce: multicast + global broadcast + per-interface /24
/// (subnet broadcast + unicast sweep of every host).
pub fn lan_targets(mode: &IfaceMode) -> (r: Vec<Endpoint>)
    ensures
        r@ == lan_targets_spec(mode.addrs()),
{
    let mut v: Vec<Endpoint> = Vec::new();
    v.push(Endpoint::new(mcast_group(), DISCOVERY_PORT));
    v.push(Endpoint::new(Ipv4::new(255, 255, 255, 255), DISCOVERY_PORT));
    let ghost head = v@;
    match mode {
        IfaceMode::All { v4_addrs } => {
            for i in 0..v4_addrs.len()
                invariant
                    v@ == head + ifaces_targets(v4_addrs@, i as nat),
            {
                push_iface_targets(&mut v, v4_addrs[i]);
                assert(v@ =~= head + ifaces_targets(v4_addrs@, (i + 1) as nat));
            }
            assert(head =~= seq![at_discovery_port(mcast_group_spec()), at_discovery_port(broadcast_spec())]);
        },
        IfaceMode::Single(ip) => {
            push_iface_targets(&mut v, *ip);
            reveal_with_fuel(ifaces_targets, 2);
            assert(v@ =~= lan_targets_spec(mode.addrs()));
        },
    }
    v
}

proof fn lemma_sweep_members(ip: Ipv4, n: nat, e: Endpoint)
    requires
        n <= 254,
    ensures
        sweep_hosts(ip, n).contains(e) <==> {
            &&& e.port == DISCOVERY_PORT
            &&& e.ip.a == ip.a && e.ip.b == ip.b && e.ip.c == ip.c
            &&& 1 <= e.ip.d <= n && e.ip.d != ip.d
        },
    decreases n,
{
    if n > 0 {
        lemma_sweep_members(ip, (n - 1) as nat, e);
        let before = sweep_hosts(ip, (n - 1) as nat);
        let now = sweep_hosts(ip, n);
        if n != ip.d {
            let last = at_discovery_port(Ipv4 { a: ip.a, b: ip.b, c: ip.c, d: n as u8 });
            assert(now == before.push(last));
            if before.contains(e) {
                let k = choose|k: int| 0 <= k < before.len() && before[k] == e;
                assert(now[k] == e);
            }
            if e == last {
                assert(now[now.len() - 1] == e);
            }
            if now.contains(e) && e != last {
                let k = choose|k: int| 0 <= k < now.len() && now[k] == e;
                assert(before[k] == e);
            }
        }
    }
}

/// The sweep of a /24 reaches exactly the hosts 1 to 254 other than this device
/// itself, all at the discovery port.
pub proof fn law_sweep_reaches_every_other_host(ip: Ipv4, e: Endpoint)
    ensures
        sweep_hosts(ip, 254).contains(e) <==> {
            &&& e.port == DISCOVERY_PORT
            &&& e.ip.a == ip.a && e.ip.b == ip.b && e.ip.c == ip.c
            &&& 1 <= e.ip.d <= 254 && e.ip.d != ip.d
        },
{
    lemma_sweep_members(ip, 254, e);
}

/// The beacon of a device.
pub open spec fn beacon_spec(id: IdentityView, reply: bool) -> BeaconView {
    BeaconView {
        node_id: id.node_id,
        name: id.name,
        tcp_port: id.tcp_port,
        udp_port: id.udp_port,
        ws_port: id.ws_port,
        reply,
    }
}

/// The beacon that announces this device, or answers another's announcement.
pub fn beacon(id: &Identity, reply: bool) -> (r: Beacon)
    ensures
        r@ == beacon_spec(id@, reply),
{
    Beacon {
        node_id: id.node_id.clone(),
        name: id.name.clone(),
        tcp_port: id.tcp_port,
        udp_port: id.udp_port,
        ws_port: id.ws_port,
        reply,
    }
}

/// The peers, in the order of the registry.
pub fn peer_list(ctx: &NetCtx) -> (r: Vec<Peer>)
    ensures
        peers_view(r@) == ctx.peers.values_spec(),
{
    let mut out: Vec<Peer> = Vec::new();
    let n: usize = ctx.peers.len();
    for i in 0..n
        invariant
            n == ctx.peers.values_spec().len(),
            out@.len() == i,
            forall|j: int| 0 <= j < i ==> (#[trigger] out@[j])@ == ctx.peers.values_spec()[j],
    {
        out.push(ctx.peers.value_at(i).clone());
    }
    assert(peers_view(out@) =~= ctx.peers.values_spec());
    out
}

/// The effect that tells the UI of the peers as they are.
pub open spec fn peers_updated(ctx: NetCtx) -> Seq<EffectView> {
    seq![EffectView::Emit(EventView::PeersUpdated { peers: ctx.peers.values_spec() })]
}

/// Tell the UI of the peers as they are.
pub fn emit_peers(ctx: &NetCtx) -> (r: Vec<Effect>)
    ensures
        effects(r@) == peers_updated(*ctx),
{
    one_effect(Effect::Emit(CoreEvent::PeersUpdated { peers: peer_list(ctx) }))
}

/// The UI is told of every known peer, once each, and of no other.
pub proof fn law_peers_updated_lists_all(ctx: NetCtx)
    requires
        ctx.peers.wf(),
    ensures
        ctx.peers.values_spec().len() == ctx@.peers.len(),
        forall|id: Seq<char>|
            ctx@.peers.contains_key(id) ==> ctx.peers.values_spec().contains(
                #[trigger] ctx@.peers[id],
            ),
        forall|i: int|
            0 <= i < ctx.peers.values_spec().len() ==> ctx@.peers.contains_key(
                ctx.peers.keys_spec()[i],
            ) && ctx@.peers[ctx.peers.keys_spec()[i]] == #[trigger] ctx.peers.values_spec()[i],
{
    ctx.peers.law_lists_the_map();
    let keys = ctx.peers.keys_spec();
    assert forall|id: Seq<char>| ctx@.peers.contains_key(id) implies ctx.peers.values_spec().contains(
        #[trigger] ctx@.peers[id],
    ) by {
        assert(keys.to_set().contains(id));
        let i = keys.index_of(id);
        assert(ctx.peers@[keys[i]] == ctx.peers.values_spec()[i]);
    }
    assert forall|i: int| 0 <= i < ctx.peers.values_spec().len() implies ctx@.peers.contains_key(
        keys[i],
    ) && ctx@.peers[keys[i]] == #[trigger] ctx.peers.values_spec()[i] by {
        assert(ctx.peers@[keys[i]] == ctx.peers.values_spec()[i]);
    }
}

/// The peer that a beacon from the given address tells of.
pub open spec fn lan_peer(b: BeaconView, ip: Seq<char>) -> PeerView {
    PeerView {
        node_id: b.node_id,
        name: b.name,
        ip,
        tcp_port: b.tcp_port,
        udp_port: b.udp_port,
        ws_port: b.ws_port,
        source: Source::Lan,
        ws_open: false,
        inbound_blocked: false,
        reflexive_ip: None,
        reflexive_udp_port: None,
    }
}

/// What a beacon from `ip` does: nothing (`None`) if it is our own; else the state with
/// its sender recorded, and whether to answer.
pub open spec fn heard(net: NetView, b: BeaconView, ip: Seq<char>) -> Option<(NetView, bool)> {
    if b.node_id == net.identity.node_id {
        None
    } else {
        Some(
            (NetView { peers: net.peers.insert(b.node_id, lan_peer(b, ip)), ..net }, !b.reply),
        )
    }
}

/// A beacon came in from `ip`. One of our own is ignored. Any other records its
/// sender as a peer, and an announcement (but not a reply) is answered once, so that
/// a single scan discovers both directions.
pub fn on_beacon(ctx: &mut NetCtx, b: Beacon, ip: String) -> (r: Option<(Vec<Effect>, bool)>)
    ensures
        match heard(old(ctx)@, b@, ip@) {
            Some(t) => {
                &&& final(ctx)@ == t.0
                &&& r matches Some(told) && effects(told.0@) == peers_updated(*final(ctx)) && told.1
                    == t.1
            },
            None => r is None && final(ctx)@ == old(ctx)@,
        },
{
    if same_text(b.node_id.as_str(), ctx.identity.node_id.as_str()) {
        return None;
    }
    let answer = !b.reply;
    let peer = Peer {
        node_id: b.node_id.clone(),
        name: b.name,
        ip,
        tcp_port: b.tcp_port,
        udp_port: b.udp_port,
        ws_port: b.ws_port,
        source: Source::Lan,
        ws_open: false,
        inbound_blocked: false,
        reflexive_ip: None,
        reflexive_udp_port: None,
    };
    ctx.peers.insert(b.node_id, peer);
    Some((emit_peers(ctx), answer))
}

/// One announcement makes two devices know each other: the one that hears it records
/// the sender and answers, the sender records the one that answered, and the exchange
/// ends there.
pub proof fn law_scan_discovers_both(a: NetView, b: NetView, ip_a: Seq<char>, ip_b: Seq<char>)
    requires
        a.identity.node_id != b.identity.node_id,
    ensures
        heard(b, beacon_spec(a.identity, false), ip_a) matches Some(at_b) && {
            &&& at_b.0.peers.contains_key(a.identity.node_id)
            &&& at_b.0.peers[a.identity.node_id].ip == ip_a
            &&& at_b.0.peers[a.identity.node_id].source == Source::Lan
            &&& at_b.1
        },
        heard(a, beacon_spec(b.identity, true), ip_b) matches Some(at_a) && {
            &&& at_a.0.peers.contains_key(b.identity.node_id)
            &&& at_a.0.peers[b.identity.node_id].ip == ip_b
            &&& at_a.0.peers[b.identity.node_id].source == Source::Lan
            &&& !at_a.1
        },
        heard(a, beacon_spec(a.identity, false), ip_a) is None,
{
}

} // verus!
