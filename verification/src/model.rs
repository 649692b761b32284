//! The data the devices exchange, and what is known of this device and its peers.

use vstd::prelude::*;

use crate::text::opt_text;

verus! {

/// This device's own endpoints, advertised to peers and the registry.
pub struct Identity {
    pub node_id: String,
    pub name: String,
    pub ip: String,
    pub tcp_port: u16,
    pub udp_port: u16,
    pub ws_port: u16,
}

#[verifier::ext_equal]
pub struct IdentityView {
    pub node_id: Seq<char>,
    pub name: Seq<char>,
    pub ip: Seq<char>,
    pub tcp_port: u16,
    pub udp_port: u16,
    pub ws_port: u16,
}

impl View for Identity {
    type V = IdentityView;

    open spec fn view(&self) -> IdentityView {
        IdentityView {
            node_id: self.node_id@,
            name: self.name@,
            ip: self.ip@,
            tcp_port: self.tcp_port,
            udp_port: self.udp_port,
            ws_port: self.ws_port,
        }
    }
}

impl Clone for Identity {
    fn clone(&self) -> (r: Self)
        ensures
            r == *self,
    {
        Identity {
            node_id: self.node_id.clone(),
            name: self.name.clone(),
            ip: self.ip.clone(),
            tcp_port: self.tcp_port,
            udp_port: self.udp_port,
            ws_port: self.ws_port,
        }
    }
}

/// LAN discovery beacon (UDP datagram body).
pub struct Beacon {
    pub node_id: String,
    pub name: String,
    pub tcp_port: u16,
    pub udp_port: u16,
    pub ws_port: u16,
    pub reply: bool,
}

#[verifier::ext_equal]
pub struct BeaconView {
    pub node_id: Seq<char>,
    pub name: Seq<char>,
    pub tcp_port: u16,
    pub udp_port: u16,
    pub ws_port: u16,
    pub reply: bool,
}

impl View for Beacon {
    type V = BeaconView;

    open spec fn view(&self) -> BeaconView {
        BeaconView {
            node_id: self.node_id@,
            name: self.name@,
            tcp_port: self.tcp_port,
            udp_port: self.udp_port,
            ws_port: self.ws_port,
            reply: self.reply,
        }
    }
}

/// Where a peer entry came from.
#[derive(Clone, Copy, Debug, PartialEq, Eq, Structural)]
pub enum Source {
    Registry,
    Lan,
    Manual,
}

/// A known peer device. Reachability is what a registry device reported of
/// itself; LAN and manual peers have none.
pub struct Peer {
    pub node_id: String,
    pub name: String,
    pub ip: String,
    pub tcp_port: u16,
    pub udp_port: u16,
    pub ws_port: u16,
    pub source: Source,
    pub ws_open: bool,
    pub inbound_blocked: bool,
    pub reflexive_ip: Option<String>,
    pub reflexive_udp_port: Option<u16>,
}

#[verifier::ext_equal]
pub struct PeerView {
    pub node_id: Seq<char>,
    pub name: Seq<char>,
    pub ip: Seq<char>,
    pub tcp_port: u16,
    pub udp_port: u16,
    pub ws_port: u16,
    pub source: Source,
    pub ws_open: bool,
    pub inbound_blocked: bool,
    pub reflexive_ip: Option<Seq<char>>,
    pub reflexive_udp_port: Option<u16>,
}

impl View for Peer {
    type V = PeerView;

    open spec fn view(&self) -> PeerView {
        PeerView {
            node_id: self.node_id@,
            name: self.name@,
            ip: self.ip@,
            tcp_port: self.tcp_port,
            udp_port: self.udp_port,
            ws_port: self.ws_port,
            source: self.source,
            ws_open: self.ws_open,
            inbound_blocked: self.inbound_blocked,
            reflexive_ip: opt_text(self.reflexive_ip),
            reflexive_udp_port: self.reflexive_udp_port,
        }
    }
}

impl Clone for Peer {
    fn clone(&self) -> (r: Self)
        ensures
            r == *self,
    {
        Peer {
            node_id: self.node_id.clone(),
            name: self.name.clone(),
            ip: self.ip.clone(),
            tcp_port: self.tcp_port,
            udp_port: self.udp_port,
            ws_port: self.ws_port,
            source: self.source,
            ws_open: self.ws_open,
            inbound_blocked: self.inbound_blocked,
            reflexive_ip: match &self.reflexive_ip {
                Some(s) => Some(s.clone()),
                None => None,
            },
            reflexive_udp_port: self.reflexive_udp_port,
        }
    }
}

/// Decrypted message body.
pub struct Plaintext {
    pub from: String,
    pub text: String,
}

/// Encrypted on-the-wire envelope (TCP/UDP body, and WS `msg` frames).
pub struct Envelope {
    pub nonce: String,
    pub ciphertext: String,
}

#[verifier::ext_equal]
pub struct EnvelopeView {
    pub nonce: Seq<char>,
    pub ciphertext: Seq<char>,
}

impl View for Envelope {
    type V = EnvelopeView;

    open spec fn view(&self) -> EnvelopeView {
        EnvelopeView { nonce: self.nonce@, ciphertext: self.ciphertext@ }
    }
}

impl Clone for Envelope {
    fn clone(&self) -> (r: Self)
        ensures
            r == *self,
    {
        Envelope { nonce: self.nonce.clone(), ciphertext: self.ciphertext.clone() }
    }
}

/// A message surfaced to the UI.
pub struct IncomingMessage {
    pub from: String,
    pub ip: String,
    pub protocol: String,
    pub text: String,
    pub ts: u64,
    pub ok: bool,
}

#[verifier::ext_equal]
pub struct IncomingView {
    pub from: Seq<char>,
    pub ip: Seq<char>,
    pub protocol: Seq<char>,
    pub text: Seq<char>,
    pub ts: u64,
    pub ok: bool,
}

impl View for IncomingMessage {
    type V = IncomingView;

    open spec fn view(&self) -> IncomingView {
        IncomingView {
            from: self.from@,
            ip: self.ip@,
            protocol: self.protocol@,
            text: self.text@,
            ts: self.ts,
            ok: self.ok,
        }
    }
}

impl Clone for IncomingMessage {
    fn clone(&self) -> (r: Self)
        ensures
            r == *self,
    {
        IncomingMessage {
            from: self.from.clone(),
            ip: self.ip.clone(),
            protocol: self.protocol.clone(),
            text: self.text.clone(),
            ts: self.ts,
            ok: self.ok,
        }
    }
}

/// WebSocket frames (protocol v1; v2 framing lives in `wire::frame`).
pub enum WsFrame {
    Hello { node_id: String, name: String },
    Msg { nonce: String, ciphertext: String },
}

#[verifier::ext_equal]
pub enum WsFrameView {
    Hello { node_id: Seq<char>, name: Seq<char> },
    Msg { nonce: Seq<char>, ciphertext: Seq<char> },
}

impl View for WsFrame {
    type V = WsFrameView;

    open spec fn view(&self) -> WsFrameView {
        match self {
            WsFrame::Hello { node_id, name } => WsFrameView::Hello {
                node_id: node_id@,
                name: name@,
            },
            WsFrame::Msg { nonce, ciphertext } => WsFrameView::Msg {
                nonce: nonce@,
                ciphertext: ciphertext@,
            },
        }
    }
}

} // verus!
