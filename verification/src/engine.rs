//! The networking state of a device and the public API that hosts thin-wrap.
//!
//! The host owns sockets, threads and the clock. It calls in with what happened and
//! performs the effects that come back.

pub mod ladder;
pub mod peers;
pub mod share;
pub mod signals;
pub mod session;
pub mod watch;

use vstd::prelude::*;

use crate::crypto::opt_key;
use crate::ids::{fresh_uuid, is_uuid_v4};
use crate::model::{Identity, IdentityView, Peer, PeerView};
use crate::node_map::NodeMap;
use crate::text::{is_blank, is_blank_spec, opt_text, texts};
use crate::transport::P2pConn;

verus! {

/// The discovery port, for hosts that want it.
pub const DISCO_PORT: u16 = crate::discovery::DISCOVERY_PORT;

/// The packages that a subscriber wants to hear of.
pub struct Apps {
    pub packages: Vec<String>,
}

impl View for Apps {
    type V = Seq<Seq<char>>;

    open spec fn view(&self) -> Seq<Seq<char>> {
        texts(self.packages@)
    }
}

/// Everything the receive loops, the features and the clipboard watcher share.
pub struct NetCtx {
    pub identity: Identity,
    pub key: Option<[u8; 32]>,
    pub peers: NodeMap<Peer>,
    /// node_id -> connection id of its link. One entry per peer.
    pub ws_conns: NodeMap<u64>,
    /// Unified live-connection registry (all transports). The UI green dot reads
    /// this.
    pub p2p_conns: NodeMap<P2pConn>,
    /// In-flight punch negotiations (initiator side): sid -> ticket of the waiting
    /// ladder.
    pub punch_waiters: NodeMap<u64>,
    /// In-flight WebRTC negotiations (initiator side): sid -> ticket.
    pub rtc_waiters: NodeMap<u64>,
    pub clip_active: bool,
    pub clip_last: String,
    /// node_id -> ticket of the pull that awaits that peer's clipboard.
    pub clip_pending: NodeMap<u64>,
    /// Producer's shareable app list as JSON array text (pushed by the host).
    pub installed_apps: String,
    /// App-notification subscriptions (subscriber node_id -> packages).
    pub subs: NodeMap<Apps>,
    /// Directed transport for peers with no live persistent channel: "UDP"
    /// (default) or "TCP". A live WS/punch/WebRTC link always wins over this.
    pub directed_transport: String,
}

#[verifier::ext_equal]
pub struct NetView {
    pub identity: IdentityView,
    pub key: Option<Seq<u8>>,
    pub peers: Map<Seq<char>, PeerView>,
    pub ws_conns: Map<Seq<char>, u64>,
    pub p2p_conns: Map<Seq<char>, P2pConn>,
    pub punch_waiters: Map<Seq<char>, u64>,
    pub rtc_waiters: Map<Seq<char>, u64>,
    pub clip_active: bool,
    pub clip_last: Seq<char>,
    pub clip_pending: Map<Seq<char>, u64>,
    pub installed_apps: Seq<char>,
    pub subs: Map<Seq<char>, Seq<Seq<char>>>,
    pub directed_transport: Seq<char>,
}

impl View for NetCtx {
    type V = NetView;

    open spec fn view(&self) -> NetView {
        NetView {
            identity: self.identity@,
            key: opt_key(self.key),
            peers: self.peers@,
            ws_conns: self.ws_conns@,
            p2p_conns: self.p2p_conns@,
            punch_waiters: self.punch_waiters@,
            rtc_waiters: self.rtc_waiters@,
            clip_active: self.clip_active,
            clip_last: self.clip_last@,
            clip_pending: self.clip_pending@,
            installed_apps: self.installed_apps@,
            subs: self.subs@,
            directed_transport: self.directed_transport@,
        }
    }
}

/// The state of a device that has just started.
pub open spec fn fresh_net(identity: IdentityView) -> NetView {
    NetView {
        identity,
        key: None,
        peers: Map::empty(),
        ws_conns: Map::empty(),
        p2p_conns: Map::empty(),
        punch_waiters: Map::empty(),
        rtc_waiters: Map::empty(),
        clip_active: false,
        clip_last: Seq::empty(),
        clip_pending: Map::empty(),
        installed_apps: "[]"@,
        subs: Map::empty(),
        directed_transport: "UDP"@,
    }
}

impl NetCtx {
    pub fn new(identity: Identity) -> (r: NetCtx)
        ensures
            r@ == fresh_net(identity@),
    {
        let r = NetCtx {
            identity,
            key: None,
            peers: NodeMap::new(),
            ws_conns: NodeMap::new(),
            p2p_conns: NodeMap::new(),
            punch_waiters: NodeMap::new(),
            rtc_waiters: NodeMap::new(),
            clip_active: false,
            clip_last: String::new(),
            clip_pending: NodeMap::new(),
            installed_apps: "[]".to_owned(),
            subs: NodeMap::new(),
            directed_transport: "UDP".to_owned(),
        };
        assert(r@ =~= fresh_net(identity@));
        r
    }
}

/// A device's whole state: its network, and its session with the server.
pub struct Engine {
    pub net: NetCtx,
    pub server_url: Option<String>,
    pub token: Option<String>,
    pub username: Option<String>,
}

#[verifier::ext_equal]
pub struct EngineView {
    pub net: NetView,
    pub server_url: Option<Seq<char>>,
    pub token: Option<Seq<char>>,
    pub username: Option<Seq<char>>,
}

impl View for Engine {
    type V = EngineView;

    open spec fn view(&self) -> EngineView {
        EngineView {
            net: self.net@,
            server_url: opt_text(self.server_url),
            token: opt_text(self.token),
            username: opt_text(self.username),
        }
    }
}

/// Success, or the reason why there is none, by its view.
pub open spec fn outcome(r: Result<(), String>) -> Result<(), Seq<char>> {
    match r {
        Ok(_) => Ok(()),
        Err(e) => Err(e@),
    }
}

/// The state of a device that has just started as a node with the given id, listening on
/// the given ports.
pub open spec fn fresh_engine(identity: IdentityView) -> EngineView {
    EngineView { net: fresh_net(identity), server_url: None, token: None, username: None }
}

impl Engine {
    /// A device that has just started as a node with the given id, listening on the given
    /// ports.
    pub fn start_as(
        node_id: String,
        name: String,
        ip: String,
        tcp_port: u16,
        udp_port: u16,
        ws_port: u16,
    ) -> (r: Engine)
        ensures
            r@ == fresh_engine(
                IdentityView {
                    node_id: node_id@,
                    name: name@,
                    ip: ip@,
                    tcp_port,
                    udp_port,
                    ws_port,
                },
            ),
    {
        let identity = Identity { node_id, name, ip, tcp_port, udp_port, ws_port };
        Engine { net: NetCtx::new(identity), server_url: None, token: None, username: None }
    }

    /// A device that has just started, listening on the given ports. Its node id is its
    /// stable hardware-derived id, or a random one where it has none.
    pub fn start(
        device_id: String,
        name: String,
        ip: String,
        tcp_port: u16,
        udp_port: u16,
        ws_port: u16,
    ) -> (r: Engine)
        ensures
            r@ == fresh_engine(
                IdentityView {
                    node_id: r@.net.identity.node_id,
                    name: name@,
                    ip: ip@,
                    tcp_port,
                    udp_port,
                    ws_port,
                },
            ),
            !is_blank_spec(device_id@) ==> r@.net.identity.node_id == device_id@,
            is_blank_spec(device_id@) ==> is_uuid_v4(r@.net.identity.node_id),
    {
        let node_id = if is_blank(device_id.as_str()) {
            fresh_uuid()
        } else {
            device_id
        };
        Engine::start_as(node_id, name, ip, tcp_port, udp_port, ws_port)
    }
}

} // verus!
