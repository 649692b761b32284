//! Choosing a transport for a message, and encrypting it for that transport.

use vstd::prelude::*;
use vstd::utf8::is_ascii_chars;

use crate::crypto::{
    encrypt, encrypt_with, envelope_fits, opened_envelope, opt_envelope, sealed_envelope,
    MAX_PLAINTEXT,
};
use crate::engine::{NetCtx, NetView};
use crate::events::{outgoing, Outgoing, OutgoingView};
use crate::model::{Envelope, EnvelopeView};
use crate::net::{ipv4_of, Endpoint, Ipv4};
use crate::node_map::NodeMap;
use crate::text::{
    ascii_uppercase, eq_ignore_ascii_case, join, same_ignoring_ascii_case, same_text, trim, trimmed,
};

verus! {

/// The transport for a message: the live channel of the peer if there is one, else
/// the directed transport.
pub open spec fn best_proto_spec(
    ws_conns: Map<Seq<char>, u64>,
    directed: Seq<char>,
    node_id: Seq<char>,
) -> Seq<char> {
    if ws_conns.contains_key(node_id) {
        "WS"@
    } else if same_ignoring_ascii_case(trimmed(directed), "tcp"@) {
        "TCP"@
    } else {
        "UDP"@
    }
}

/// Pick the transport for a message to `node_id`. Any live persistent channel (a
/// WebSocket, a UDP hole punch or WebRTC, all of which register in `ws_conns` and
/// share its `"WS"` framed send path) is always preferred, so that exchanges ride
/// the active connection. With no such channel, fall back to the user's directed
/// transport preference (`UDP` default, or `TCP`). This is the single chooser used
/// by chat send and every discrete feature.
pub fn best_proto(ws_conns: &NodeMap<u64>, directed: &str, node_id: &str) -> (r: &'static str)
    ensures
        r@ == best_proto_spec(ws_conns@, directed@, node_id@),
{
    if ws_conns.contains_key(node_id) {
        "WS"
    } else if eq_ignore_ascii_case(trim(directed), "tcp") {
        "TCP"
    } else {
        "UDP"
    }
}

/// The message that carries a control text to a peer.
pub open spec fn control_to(net: NetView, node_id: Seq<char>, text: Seq<char>) -> OutgoingView {
    OutgoingView {
        from: net.identity.name,
        node_id,
        protocol: best_proto_spec(net.ws_conns, net.directed_transport, node_id),
        text,
    }
}

/// Address an already-built control text to one peer, over the active connection
/// (live WS/punch/WebRTC), else the directed transport. Shared by every discrete
/// feature.
pub fn send_control_to(ctx: &NetCtx, node_id: &str, text: &str) -> (r: Outgoing)
    ensures
        r@ == control_to(ctx@, node_id@, text@),
{
    Outgoing {
        from: ctx.identity.name.clone(),
        node_id: node_id.to_owned(),
        protocol: best_proto(&ctx.ws_conns, ctx.directed_transport.as_str(), node_id).to_owned(),
        text: text.to_owned(),
    }
}

/// The messages that carry a control text to each of some peers.
pub open spec fn controls_to(net: NetView, ids: Seq<Seq<char>>, text: Seq<char>) -> Seq<
    OutgoingView,
> {
    ids.map_values(|id: Seq<char>| control_to(net, id, text))
}

/// Address a control text to all known peers.
pub fn broadcast_control(ctx: &NetCtx, text: &str) -> (r: Vec<Outgoing>)
    ensures
        outgoing(r@) == controls_to(ctx@, ctx.peers.keys_spec(), text@),
{
    let ids = ctx.peers.keys();
    let mut out: Vec<Outgoing> = Vec::new();
    for i in 0..ids.len()
        invariant
            crate::text::texts(ids@) == ctx.peers.keys_spec(),
            outgoing(out@) == controls_to(ctx@, ctx.peers.keys_spec(), text@).take(i as int),
    {
        assert(crate::text::texts(ids@)[i as int] == ids@[i as int]@);
        let ghost before = out@;
        out.push(send_control_to(ctx, ids[i].as_str(), text));
        assert(outgoing(out@) =~= outgoing(before).push(out@.last()@));
        assert(controls_to(ctx@, ctx.peers.keys_spec(), text@).take(i + 1) =~= controls_to(
            ctx@,
            ctx.peers.keys_spec(),
            text@,
        ).take(i as int).push(control_to(ctx@, ctx.peers.keys_spec()[i as int], text@)));
    }
    assert(controls_to(ctx@, ctx.peers.keys_spec(), text@).take(ids@.len() as int)
        =~= controls_to(ctx@, ctx.peers.keys_spec(), text@));
    out
}

/// A broadcast addresses every known peer, and each only once.
pub proof fn law_broadcast_reaches_each_peer_once(ctx: NetCtx, text: Seq<char>)
    requires
        ctx.peers.wf(),
    ensures
        controls_to(ctx@, ctx.peers.keys_spec(), text).len() == ctx@.peers.len(),
        forall|id: Seq<char>|
            ctx@.peers.contains_key(id) ==> exists|i: int|
                0 <= i < ctx.peers.keys_spec().len() && (#[trigger] controls_to(
                    ctx@,
                    ctx.peers.keys_spec(),
                    text,
                )[i]).node_id == id,
        forall|i: int, j: int|
            0 <= i < j < ctx.peers.keys_spec().len() ==> (#[trigger] controls_to(
                ctx@,
                ctx.peers.keys_spec(),
                text,
            )[i]).node_id != (#[trigger] controls_to(ctx@, ctx.peers.keys_spec(), text)[j]).node_id,
{
    ctx.peers.law_lists_the_map();
    let ids = ctx.peers.keys_spec();
    let out = controls_to(ctx@, ids, text);
    assert forall|id: Seq<char>| ctx@.peers.contains_key(id) implies exists|i: int|
        0 <= i < ids.len() && (#[trigger] out[i]).node_id == id by {
        let i = ids.index_of(id);
        assert(ids.to_set().contains(id));
        assert(out[i].node_id == id);
    }
}

/// The upper-case form of a text, as Unicode has it.
pub uninterp spec fn uppercase(s: Seq<char>) -> Seq<char>;

/// `str::to_uppercase`. The result is a function of the text; of an ASCII text, the
/// letters from `a` to `z` become those from `A` to `Z` and the rest stays as it is.
#[verifier::external_body]
fn to_uppercase(s: &str) -> (r: String)
    ensures
        r@ == uppercase(s@),
        is_ascii_chars(s@) ==> r@ == ascii_uppercase(s@),
{
    s.to_uppercase()
}

/// Where an encrypted message goes.
pub enum Dispatch {
    /// As a `msg` frame, into the link with this connection id.
    Ws { conn: u64, env: Envelope },
    /// As the body of a TCP connection.
    Tcp { to: Endpoint, env: Envelope },
    /// As a UDP datagram.
    Udp { to: Endpoint, env: Envelope },
}

#[verifier::ext_equal]
pub enum DispatchView {
    Ws { conn: u64, env: EnvelopeView },
    Tcp { to: Endpoint, env: EnvelopeView },
    Udp { to: Endpoint, env: EnvelopeView },
}

impl View for Dispatch {
    type V = DispatchView;

    open spec fn view(&self) -> DispatchView {
        match self {
            Dispatch::Ws { conn, env } => DispatchView::Ws { conn: *conn, env: env@ },
            Dispatch::Tcp { to, env } => DispatchView::Tcp { to: *to, env: env@ },
            Dispatch::Udp { to, env } => DispatchView::Udp { to: *to, env: env@ },
        }
    }
}

impl DispatchView {
    /// What goes over the wire.
    pub open spec fn envelope(self) -> EnvelopeView {
        match self {
            DispatchView::Ws { env, .. } => env,
            DispatchView::Tcp { env, .. } => env,
            DispatchView::Udp { env, .. } => env,
        }
    }
}

/// A dispatch or the reason why there is none, by its view.
pub open spec fn dispatch_view(r: Result<Dispatch, String>) -> Result<DispatchView, Seq<char>> {
    match r {
        Ok(d) => Ok(d@),
        Err(e) => Err(e@),
    }
}

/// Where an envelope to `node_id` goes over the given (upper-case) protocol.
pub open spec fn routed(
    net: NetView,
    node_id: Seq<char>,
    proto: Seq<char>,
    env: EnvelopeView,
) -> Result<DispatchView, Seq<char>> {
    if proto == "WS"@ {
        if net.ws_conns.contains_key(node_id) {
            Ok(DispatchView::Ws { conn: net.ws_conns[node_id], env })
        } else {
            Err("no WebSocket connection — trigger 'Connect (WS)' first"@)
        }
    } else if !net.peers.contains_key(node_id) {
        Err("peer not found"@)
    } else {
        let peer = net.peers[node_id];
        match ipv4_of(peer.ip) {
            None => Err("bad peer ip"@),
            Some(ip) => if proto == "TCP"@ {
                Ok(DispatchView::Tcp { to: Endpoint { ip, port: peer.tcp_port }, env })
            } else if proto == "UDP"@ {
                Ok(DispatchView::Udp { to: Endpoint { ip, port: peer.udp_port }, env })
            } else {
                Err("unknown protocol: "@ + proto)
            },
        }
    }
}

/// What becomes of a plaintext that is to go to `node_id`, under a given nonce.
pub open spec fn dispatched(
    net: NetView,
    nonce: Seq<u8>,
    plaintext: Seq<u8>,
    node_id: Seq<char>,
    protocol: Seq<char>,
) -> Result<DispatchView, Seq<char>> {
    match net.key {
        None => Err("set your encryption key first"@),
        Some(key) => match sealed_envelope(key, nonce, plaintext) {
            None => Err("encryption failed"@),
            Some(env) => routed(net, node_id, uppercase(protocol), env),
        },
    }
}

/// Where an envelope to `node_id` goes over a protocol that is in upper case.
pub fn route_over(ctx: &NetCtx, node_id: &str, proto: &str, env: Envelope) -> (r: Result<
    Dispatch,
    String,
>)
    ensures
        dispatch_view(r) == routed(ctx@, node_id@, proto@, env@),
{
    if same_text(proto, "WS") {
        return match ctx.ws_conns.get(node_id) {
            Some(conn) => Ok(Dispatch::Ws { conn: *conn, env }),
            None => Err("no WebSocket connection — trigger 'Connect (WS)' first".to_owned()),
        };
    }
    match ctx.peers.get(node_id) {
        None => Err("peer not found".to_owned()),
        Some(peer) => match Ipv4::parse(peer.ip.as_str()) {
            None => Err("bad peer ip".to_owned()),
            Some(ip) => {
                if same_text(proto, "TCP") {
                    Ok(Dispatch::Tcp { to: Endpoint::new(ip, peer.tcp_port), env })
                } else if same_text(proto, "UDP") {
                    Ok(Dispatch::Udp { to: Endpoint::new(ip, peer.udp_port), env })
                } else {
                    Err(join("unknown protocol: ", proto))
                }
            },
        },
    }
}

/// Where an envelope to `node_id` goes over a protocol, in whatever case it is given.
fn route(ctx: &NetCtx, node_id: &str, protocol: &str, env: Envelope) -> (r: Result<
    Dispatch,
    String,
>)
    ensures
        dispatch_view(r) == routed(ctx@, node_id@, uppercase(protocol@), env@),
        is_ascii_chars(protocol@) ==> uppercase(protocol@) == ascii_uppercase(protocol@),
{
    let proto = to_uppercase(protocol);
    route_over(ctx, node_id, proto.as_str(), env)
}

/// `send_payload` under a given nonce.
pub fn send_payload_with(
    ctx: &NetCtx,
    nonce: &[u8; 24],
    plaintext: &[u8],
    node_id: &str,
    protocol: &str,
) -> (r: Result<Dispatch, String>)
    requires
        envelope_fits(plaintext@.len() as int),
    ensures
        dispatch_view(r) == dispatched(ctx@, nonce@, plaintext@, node_id@, protocol@),
        ctx@.key matches Some(key) ==> plaintext@.len() <= MAX_PLAINTEXT ==> {
            &&& sealed_envelope(key, nonce@, plaintext@) matches Some(env)
            &&& dispatch_view(r) == routed(ctx@, node_id@, uppercase(protocol@), env)
            &&& opened_envelope(key, env) == Some(plaintext@)
            &&& is_ascii_chars(protocol@) ==> uppercase(protocol@) == ascii_uppercase(protocol@)
        },
{
    match &ctx.key {
        None => Err("set your encryption key first".to_owned()),
        Some(key) => match encrypt_with(key, nonce, plaintext) {
            None => Err("encryption failed".to_owned()),
            Some(env) => route(ctx, node_id, protocol, env),
        },
    }
}

/// Encrypt a serialized `Plaintext` under a fresh nonce and say where it goes: to
/// `node_id` over the given transport. Shared by the chat send command and every
/// feature. What goes out opens again under this device's key and gives the
/// plaintext. With a key, and a plaintext that is not too long, whether and where it goes
/// is a matter of the peer and of the protocol, in capitals, alone.
pub fn send_payload(ctx: &NetCtx, plaintext: &[u8], node_id: &str, protocol: &str) -> (r: Result<
    Dispatch,
    String,
>)
    requires
        envelope_fits(plaintext@.len() as int),
    ensures
        exists|nonce: Seq<u8>| #[trigger]
            dispatched(ctx@, nonce, plaintext@, node_id@, protocol@) == dispatch_view(r)
                && nonce.len() == 24,
        r matches Ok(d) ==> (ctx@.key matches Some(key) && opened_envelope(key, d@.envelope())
            == Some(plaintext@)),
        ctx@.key is Some && plaintext@.len() <= MAX_PLAINTEXT ==> {
            &&& exists|env: EnvelopeView| #[trigger]
                routed(ctx@, node_id@, uppercase(protocol@), env) == dispatch_view(r)
            &&& is_ascii_chars(protocol@) ==> uppercase(protocol@) == ascii_uppercase(protocol@)
        },
{
    match &ctx.key {
        None => {
            let r: Result<Dispatch, String> = Err("set your encryption key first".to_owned());
            proof {
                let nonce = Seq::new(24, |i: int| 0u8);
                assert(dispatched(ctx@, nonce, plaintext@, node_id@, protocol@) == dispatch_view(
                    r,
                ));
            }
            r
        },
        Some(key) => {
            let env = encrypt(key, plaintext);
            let ghost nonce = choose|nonce: Seq<u8>| #[trigger]
                sealed_envelope(key@, nonce, plaintext@) == opt_envelope(env)
                    && nonce.len() == 24;
            let r = match env {
                None => Err("encryption failed".to_owned()),
                Some(env) => route(ctx, node_id, protocol, env),
            };
            assert(dispatched(ctx@, nonce, plaintext@, node_id@, protocol@) == dispatch_view(r));
            r
        },
    }
}

/// A message under the transport that `best_proto` picks never fails for want of a
/// known protocol or of a link: with a live channel it rides that channel, and
/// otherwise only an unknown peer or a bad address stops it.
pub proof fn law_best_proto_routes(net: NetView, node_id: Seq<char>, env: EnvelopeView)
    ensures
        ({
            let proto = best_proto_spec(net.ws_conns, net.directed_transport, node_id);
            let r = routed(net, node_id, proto, env);
            &&& net.ws_conns.contains_key(node_id) ==> r == Ok::<DispatchView, Seq<char>>(
                DispatchView::Ws { conn: net.ws_conns[node_id], env },
            )
            &&& !net.ws_conns.contains_key(node_id) ==> (r is Ok <==> net.peers.contains_key(
                node_id,
            ) && ipv4_of(net.peers[node_id].ip) is Some)
            &&& is_ascii_chars(proto) && ascii_uppercase(proto) == proto
        }),
{
    reveal_strlit("WS");
    reveal_strlit("TCP");
    reveal_strlit("UDP");
    assert("WS"@.len() == 2 && "TCP"@.len() == 3 && "UDP"@.len() == 3);
    assert("UDP"@[0] == 'U' && "TCP"@[0] == 'T');
}

} // verus!
