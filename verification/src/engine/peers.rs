//! The peers a device knows: from the registry, from the LAN, and by hand.

use vstd::prelude::*;

use super::{Engine, EngineView, NetCtx, NetView};
use crate::discovery::{
    beacon, beacon_spec, emit_peers, lan_targets, lan_targets_spec, law_peers_updated_lists_all,
    peer_list, peers_updated,
};
use crate::events::{effects, peers_view, Effect};
use crate::model::{Beacon, Identity, IdentityView, Peer, PeerView, Source};
use crate::net::{dotted, ipv4_of, Endpoint, Ipv4};
use crate::platform::IfaceMode;
use crate::registry::{
    post_spec, registration, registry_fetch, registry_register, HttpRequest, RegistryDevice,
    RequestView,
};
use crate::text::{
    is_blank, is_blank_spec, join, opt_str, opt_text, texts, trim, trimmed,
};

verus! {

/// How often a LAN scan announces this device, and how far apart.
pub const SCAN_ROUNDS: u32 = 3;

pub const SCAN_EVERY_MS: u64 = 700;

/// The peer that a registry entry tells of.
pub open spec fn registry_peer(d: RegistryDevice) -> PeerView {
    PeerView {
        node_id: d.node_id@,
        name: d.name@,
        ip: d.ip@,
        tcp_port: d.tcp_port,
        udp_port: d.udp_port,
        ws_port: d.ws_port,
        source: Source::Registry,
        ws_open: d.ws_open,
        inbound_blocked: d.inbound_blocked,
        reflexive_ip: opt_text(d.reflexive_ip),
        reflexive_udp_port: d.reflexive_udp_port,
    }
}

/// The peers that did not come from the registry.
pub open spec fn without_registry(peers: Map<Seq<char>, PeerView>) -> Map<Seq<char>, PeerView> {
    Map::new(
        |id: Seq<char>| peers.contains_key(id) && peers[id].source != Source::Registry,
        |id: Seq<char>| peers[id],
    )
}

/// The peers with the first `n` registry entries added, one after the other.
pub open spec fn with_devices(
    peers: Map<Seq<char>, PeerView>,
    devices: Seq<RegistryDevice>,
    n: nat,
) -> Map<Seq<char>, PeerView>
    decreases n,
{
    if n == 0 {
        peers
    } else {
        let d = devices[n - 1];
        with_devices(peers, devices, (n - 1) as nat).insert(d.node_id@, registry_peer(d))
    }
}

/// The peers once the registry has been consulted.
pub open spec fn refreshed_peers(
    peers: Map<Seq<char>, PeerView>,
    devices: Seq<RegistryDevice>,
) -> Map<Seq<char>, PeerView> {
    with_devices(without_registry(peers), devices, devices.len())
}

fn drop_registry_peers(ctx: &mut NetCtx)
    ensures
        final(ctx)@ == (NetView { peers: without_registry(old(ctx)@.peers), ..old(ctx)@ }),
{
    let ghost all = ctx.peers@;
    proof {
        use_type_invariant(&ctx.peers);
    }
    let mut i: usize = 0;
    while i < ctx.peers.len()
        invariant
            i <= ctx.peers.keys_spec().len(),
            ctx.peers.wf(),
            ctx@ == (NetView { peers: ctx.peers@, ..old(ctx)@ }),
            all == old(ctx)@.peers,
            forall|id: Seq<char>| #[trigger]
                ctx.peers@.contains_key(id) ==> all.contains_key(id) && ctx.peers@[id] == all[id],
            forall|id: Seq<char>|
                #![trigger all[id]]
                #![trigger all.contains_key(id)]
                #![trigger ctx.peers@.contains_key(id)]
                all.contains_key(id) && all[id].source != Source::Registry
                    ==> ctx.peers@.contains_key(id),
            forall|j: int|
                0 <= j < i ==> ctx.peers@[#[trigger] ctx.peers.keys_spec()[j]].source
                    != Source::Registry,
        decreases ctx.peers.keys_spec().len() - i,
    {
        proof {
            ctx.peers.law_lists_the_map();
        }
        let ghost before = ctx.peers;
        let from_registry = ctx.peers.value_at(i).source == Source::Registry;
        assert(before@[before.keys_spec()[i as int]] == before.values_spec()[i as int]);
        if from_registry {
            let _ = ctx.peers.remove_at(i);
            proof {
                use_type_invariant(&ctx.peers);
                ctx.peers.law_lists_the_map();
                assert forall|j: int| 0 <= j < i implies ctx.peers@[#[trigger] ctx.peers.keys_spec()[j]].source
                    != Source::Registry by {
                    assert(ctx.peers.keys_spec()[j] == before.keys_spec()[j]);
                }
            }
        } else {
            i = i + 1;
        }
    }
    proof {
        ctx.peers.law_lists_the_map();
        let keys = ctx.peers.keys_spec();
        assert forall|id: Seq<char>| #[trigger] ctx.peers@.contains_key(id) implies all[id].source
            != Source::Registry by {
            assert(keys.to_set().contains(id));
            let j = keys.index_of(id);
            assert(keys[j] == id);
        }
        assert(ctx.peers@ =~= without_registry(all));
    }
}

impl Engine {
    pub fn identity(&self) -> (r: Identity)
        ensures
            r@ == self@.net.identity,
    {
        self.net.identity.clone()
    }

    pub fn get_peers(&self) -> (r: Vec<Peer>)
        ensures
            peers_view(r@) == self.net.peers.values_spec(),
            r@.len() == self@.net.peers.len(),
            forall|id: Seq<char>|
                self@.net.peers.contains_key(id) ==> peers_view(r@).contains(
                    #[trigger] self@.net.peers[id],
                ),
    {
        proof {
            use_type_invariant(&self.net.peers);
            law_peers_updated_lists_all(self.net);
        }
        peer_list(&self.net)
    }

    /// The peers with a live link.
    pub fn connected_peers(&self) -> (r: Vec<String>)
        ensures
            texts(r@) == self.net.p2p_conns.keys_spec(),
            texts(r@).to_set() == self@.net.p2p_conns.dom(),
    {
        proof {
            use_type_invariant(&self.net.p2p_conns);
            self.net.p2p_conns.law_lists_the_map();
        }
        self.net.p2p_conns.keys()
    }

    /// The two requests that refresh the registry's view of us and ours of it: tell
    /// it of this device, then ask for the others. What the second brings goes to
    /// `apply_registry_peers`.
    pub fn refresh_from_server(&self, fcm_token: Option<&str>, platform: &str) -> (r: Result<
        (HttpRequest, HttpRequest),
        String,
    >)
        ensures
            match (self@.server_url, self@.token) {
                (Some(url), Some(token)) => r matches Ok(t) && t.0@ == post_spec(
                    url,
                    "/devices/register"@,
                    Some(token),
                    registration(self@.net.identity, opt_str(fcm_token), platform@, false),
                ) && t.1@ == (RequestView {
                    method: crate::registry::Method::Get,
                    url: crate::registry::base_spec(url) + "/devices?exclude="@
                        + self@.net.identity.node_id,
                    authorization: Some("Bearer "@ + token),
                    body: None,
                    timeout_secs: 10,
                }),
                _ => r matches Err(e) && e@ == "not logged in"@,
            },
    {
        match (&self.server_url, &self.token) {
            (Some(url), Some(token)) => {
                let id = &self.net.identity;
                let register = registry_register(
                    url.as_str(),
                    token.as_str(),
                    id,
                    fcm_token,
                    platform,
                    false,
                );
                let fetch = registry_fetch(url.as_str(), token.as_str(), id.node_id.as_str());
                Ok((register, fetch))
            },
            _ => Err("not logged in".to_owned()),
        }
    }

    /// Take over what the registry lists: its former entries go, LAN and manual peers
    /// stay unless the registry lists them too.
    pub fn apply_registry_peers(&mut self, devices: Vec<RegistryDevice>) -> (r: Vec<Effect>)
        ensures
            final(self)@ == (EngineView {
                net: NetView {
                    peers: refreshed_peers(old(self)@.net.peers, devices@),
                    ..old(self)@.net
                },
                ..old(self)@
            }),
            effects(r@) == peers_updated(final(self).net),
    {
        let ghost before = self@;
        drop_registry_peers(&mut self.net);
        let ghost kept = self.net@.peers;
        for i in 0..devices.len()
            invariant
                kept == without_registry(before.net.peers),
                self@ == (EngineView {
                    net: NetView {
                        peers: with_devices(kept, devices@, i as nat),
                        ..before.net
                    },
                    ..before
                }),
        {
            let d = &devices[i];
            let peer = Peer {
                node_id: d.node_id.clone(),
                name: d.name.clone(),
                ip: d.ip.clone(),
                tcp_port: d.tcp_port,
                udp_port: d.udp_port,
                ws_port: d.ws_port,
                source: Source::Registry,
                ws_open: d.ws_open,
                inbound_blocked: d.inbound_blocked,
                reflexive_ip: crate::text::clone_opt(&d.reflexive_ip),
                reflexive_udp_port: d.reflexive_udp_port,
            };
            self.net.peers.insert(d.node_id.clone(), peer);
        }
        emit_peers(&self.net)
    }

    /// What a LAN scan sends (`SCAN_ROUNDS` times, `SCAN_EVERY_MS` apart) and where.
    pub fn scan_lan(&self, mode: &IfaceMode) -> (r: (Beacon, Vec<Endpoint>))
        ensures
            r.0@ == beacon_spec(self@.net.identity, false),
            r.1@ == lan_targets_spec(mode.addrs()),
    {
        (beacon(&self.net.identity, false), lan_targets(mode))
    }

    /// Update the advertised IP after a network change: the one given, if it is an
    /// IPv4 address, else the one the host now has. Says whether to re-register.
    pub fn network_changed(&mut self, new_ip: Option<&str>, local_ip: String) -> (r: bool)
        ensures
            final(self)@ == (EngineView {
                net: NetView {
                    identity: IdentityView {
                        ip: match opt_str(new_ip) {
                            Some(s) => if ipv4_of(s) is Some {
                                s
                            } else {
                                local_ip@
                            },
                            None => local_ip@,
                        },
                        ..old(self)@.net.identity
                    },
                    ..old(self)@.net
                },
                ..old(self)@
            }),
            r == (old(self)@.token is Some),
    {
        let ip = match new_ip {
            Some(s) => if Ipv4::parse(s).is_some() {
                s.to_owned()
            } else {
                local_ip
            },
            None => local_ip,
        };
        self.net.identity.ip = ip;
        self.token.is_some()
    }

    /// Add a peer by hand. It is known by its address, and named after it unless it
    /// is given a name.
    pub fn add_manual_peer(
        &mut self,
        name: &str,
        ip: &str,
        tcp_port: u16,
        udp_port: u16,
        ws_port: u16,
    ) -> (r: Result<Vec<Effect>, String>)
        ensures
            match ipv4_of(trimmed(ip@)) {
                None => {
                    &&& r matches Err(e) && e@ == "invalid IPv4: "@ + ip@
                    &&& final(self)@ == old(self)@
                },
                Some(a) => {
                    &&& r matches Ok(out) && effects(out@) == peers_updated(final(self).net)
                    &&& final(self)@ == (EngineView {
                        net: NetView {
                            peers: old(self)@.net.peers.insert(
                                "manual:"@ + dotted(a),
                                manual_peer(name@, a, tcp_port, udp_port, ws_port),
                            ),
                            ..old(self)@.net
                        },
                        ..old(self)@
                    })
                },
            },
    {
        let addr = match Ipv4::parse(trim(ip)) {
            Some(a) => a,
            None => {
                return Err(join("invalid IPv4: ", ip));
            },
        };
        let text = addr.to_text();
        let node_id = join("manual:", text.as_str());
        let display = if is_blank(name) {
            text.clone()
        } else {
            trim(name).to_owned()
        };
        let peer = Peer {
            node_id: node_id.clone(),
            name: display,
            ip: text,
            tcp_port,
            udp_port,
            ws_port,
            source: Source::Manual,
            ws_open: false,
            inbound_blocked: false,
            reflexive_ip: None,
            reflexive_udp_port: None,
        };
        self.net.peers.insert(node_id, peer);
        Ok(emit_peers(&self.net))
    }

    pub fn remove_peer(&mut self, node_id: &str) -> (r: Vec<Effect>)
        ensures
            final(self)@ == (EngineView {
                net: NetView {
                    peers: old(self)@.net.peers.remove(node_id@),
                    ..old(self)@.net
                },
                ..old(self)@
            }),
            effects(r@) == peers_updated(final(self).net),
    {
        let _ = self.net.peers.remove(node_id);
        emit_peers(&self.net)
    }
}

/// The peer that is added by hand.
pub open spec fn manual_peer(
    name: Seq<char>,
    ip: Ipv4,
    tcp_port: u16,
    udp_port: u16,
    ws_port: u16,
) -> PeerView {
    PeerView {
        node_id: "manual:"@ + dotted(ip),
        name: if is_blank_spec(name) {
            dotted(ip)
        } else {
            trimmed(name)
        },
        ip: dotted(ip),
        tcp_port,
        udp_port,
        ws_port,
        source: Source::Manual,
        ws_open: false,
        inbound_blocked: false,
        reflexive_ip: None,
        reflexive_udp_port: None,
    }
}

/// Whether one of the first `n` registry entries is for this node.
pub open spec fn listed(devices: Seq<RegistryDevice>, n: nat, id: Seq<char>) -> bool {
    exists|k: int| 0 <= k < n && (#[trigger] devices[k]).node_id@ == id
}

proof fn lemma_with_devices(
    peers: Map<Seq<char>, PeerView>,
    devices: Seq<RegistryDevice>,
    n: nat,
    id: Seq<char>,
)
    requires
        n <= devices.len(),
    ensures
        ({
            let m = with_devices(peers, devices, n);
            &&& listed(devices, n, id) ==> m.contains_key(id) && m[id].source == Source::Registry
                && m[id].node_id == id
            &&& !listed(devices, n, id) ==> (m.contains_key(id) <==> peers.contains_key(id))
            &&& !listed(devices, n, id) && peers.contains_key(id) ==> m[id] == peers[id]
        }),
    decreases n,
{
    if n > 0 {
        lemma_with_devices(peers, devices, (n - 1) as nat, id);
        if devices[n - 1].node_id@ == id {
            assert(listed(devices, n, id));
        } else if listed(devices, n, id) {
            let k = choose|k: int| 0 <= k < n && (#[trigger] devices[k]).node_id@ == id;
            assert(0 <= k < n - 1 && devices[k].node_id@ == id);
            assert(listed(devices, (n - 1) as nat, id));
        }
        if listed(devices, (n - 1) as nat, id) {
            let k = choose|k: int| 0 <= k < n - 1 && (#[trigger] devices[k]).node_id@ == id;
            assert(devices[k].node_id@ == id);
            assert(listed(devices, n, id));
        }
    }
}

/// After a refresh the registry's entries are exactly those it lists now, and a LAN
/// or manual peer that it does not list is as it was.
pub proof fn law_refresh(
    peers: Map<Seq<char>, PeerView>,
    devices: Seq<RegistryDevice>,
    id: Seq<char>,
)
    ensures
        ({
            let now = refreshed_peers(peers, devices);
            let in_list = listed(devices, devices.len(), id);
            &&& in_list <==> (now.contains_key(id) && now[id].source == Source::Registry)
            &&& !in_list ==> (now.contains_key(id) <==> peers.contains_key(id) && peers[id].source
                != Source::Registry)
            &&& !in_list && now.contains_key(id) ==> now[id] == peers[id]
        }),
{
    lemma_with_devices(without_registry(peers), devices, devices.len(), id);
}

/// Refreshing twice with the same answer is the same as once.
pub proof fn law_refresh_again(peers: Map<Seq<char>, PeerView>, devices: Seq<RegistryDevice>)
    ensures
        refreshed_peers(refreshed_peers(peers, devices), devices) == refreshed_peers(
            peers,
            devices,
        ),
{
    let once = refreshed_peers(peers, devices);
    let twice = refreshed_peers(once, devices);
    lemma_last_listed(without_registry(peers), without_registry(once), devices, devices.len());
    assert forall|id: Seq<char>| once.contains_key(id) == #[trigger] twice.contains_key(id) by {
        law_refresh(peers, devices, id);
        law_refresh(once, devices, id);
    }
    assert forall|id: Seq<char>| once.contains_key(id) implies once[id] == #[trigger] twice[id] by {
        law_refresh(peers, devices, id);
        law_refresh(once, devices, id);
    }
    assert(once =~= twice);
}

proof fn lemma_last_listed(
    a: Map<Seq<char>, PeerView>,
    b: Map<Seq<char>, PeerView>,
    devices: Seq<RegistryDevice>,
    n: nat,
)
    requires
        n <= devices.len(),
    ensures
        forall|id: Seq<char>|
            listed(devices, n, id) ==> #[trigger] with_devices(a, devices, n)[id] == with_devices(
                b,
                devices,
                n,
            )[id],
    decreases n,
{
    if n > 0 {
        lemma_last_listed(a, b, devices, (n - 1) as nat);
        assert forall|id: Seq<char>| listed(devices, n, id) implies #[trigger] with_devices(
            a,
            devices,
            n,
        )[id] == with_devices(b, devices, n)[id] by {
            if devices[n - 1].node_id@ != id {
                let k = choose|k: int| 0 <= k < n && (#[trigger] devices[k]).node_id@ == id;
                assert(0 <= k < n - 1 && devices[k].node_id@ == id);
                assert(listed(devices, (n - 1) as nat, id));
                assert(with_devices(a, devices, (n - 1) as nat)[id] == with_devices(
                    b,
                    devices,
                    (n - 1) as nat,
                )[id]);
            }
        }
    }
}

} // verus!
