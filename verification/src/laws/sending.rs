//! What is sent where, and what becomes of what is received.

use vstd::prelude::*;

use crate::capabilities::Capabilities;
use crate::crypto::{opened, sealed, MAX_PLAINTEXT};
use crate::encoding::{base64_text, law_base64_round_trip};
use crate::engine::{NetCtx, NetView};
use crate::events::{effects, Effect, EffectView, EventView, Outgoing, OutgoingView};
use crate::features::{default_handlers, dispatched, ControlRegistry, Feature};
use crate::model::{Envelope, EnvelopeView, IncomingMessage, IncomingView, Plaintext};
use crate::net::{dotted, law_ipv4_round_trip, Endpoint, Ipv4};
use crate::node_map::NodeMap;
use crate::text::{same_ignoring_ascii_case, trimmed};
use crate::transport::incoming::{
    classify, envelope_to_message, handle_incoming, open_incoming, Opened,
};
use crate::transport::send::{
    best_proto, broadcast_control, route_over, send_control_to, send_payload, send_payload_with,
    uppercase, Dispatch, DispatchView,
};

verus! {

/// A live channel is always taken; without one the directed transport is, which is TCP
/// where that was asked for and UDP for anything else.
pub proof fn law_best_transport(
    ws_conns: NodeMap<u64>,
    directed: &str,
    node_id: &str,
    r: &'static str,
)
    requires
        call_ensures(best_proto, (&ws_conns, directed, node_id), r),
    ensures
        r@ == "WS"@ || r@ == "TCP"@ || r@ == "UDP"@,
        r@ == "WS"@ <==> ws_conns@.contains_key(node_id@),
        !ws_conns@.contains_key(node_id@) ==> (r@ == "TCP"@ <==> same_ignoring_ascii_case(
            trimmed(directed@),
            "tcp"@,
        )),
{
    reveal_strlit("WS");
    reveal_strlit("TCP");
    reveal_strlit("UDP");
    assert("WS"@.len() == 2 && "TCP"@.len() == 3 && "UDP"@.len() == 3);
    assert("UDP"@[0] == 'U' && "TCP"@[0] == 'T');
}

/// A control text goes as it is to the peer it is for, in this device's name, over the best
/// transport.
pub proof fn law_control_is_addressed(ctx: NetCtx, node_id: &str, text: &str, r: Outgoing)
    requires
        call_ensures(send_control_to, (&ctx, node_id, text), r),
    ensures
        r@.text == text@,
        r@.node_id == node_id@,
        r@.from == ctx@.identity.name,
        ctx@.ws_conns.contains_key(node_id@) ==> r@.protocol == "WS"@,
        !ctx@.ws_conns.contains_key(node_id@) && same_ignoring_ascii_case(
            trimmed(ctx@.directed_transport),
            "tcp"@,
        ) ==> r@.protocol == "TCP"@,
        !ctx@.ws_conns.contains_key(node_id@) && !same_ignoring_ascii_case(
            trimmed(ctx@.directed_transport),
            "tcp"@,
        ) ==> r@.protocol == "UDP"@,
{
}

/// Whether a message is a control text to a peer, in this device's name and over the best
/// transport to that peer.
pub open spec fn is_control_to(net: NetView, o: OutgoingView, id: Seq<char>, text: Seq<char>) -> bool {
    &&& o.node_id == id
    &&& o.text == text
    &&& o.from == net.identity.name
    &&& o.protocol == if net.ws_conns.contains_key(id) {
        "WS"@
    } else if same_ignoring_ascii_case(trimmed(net.directed_transport), "tcp"@) {
        "TCP"@
    } else {
        "UDP"@
    }
}

/// Whether some messages are a control text to each of some peers, once.
pub open spec fn is_broadcast(
    net: NetView,
    out: Seq<Outgoing>,
    to: Set<Seq<char>>,
    text: Seq<char>,
) -> bool {
    &&& forall|i: int|
        0 <= i < out.len() ==> to.contains((#[trigger] out[i])@.node_id) && is_control_to(
            net,
            out[i]@,
            out[i]@.node_id,
            text,
        )
    &&& forall|id: Seq<char>| #[trigger]
        to.contains(id) ==> exists|i: int| 0 <= i < out.len() && (#[trigger] out[i])@.node_id == id
    &&& forall|i: int, j: int|
        0 <= i < j < out.len() ==> (#[trigger] out[i])@.node_id != (#[trigger] out[j])@.node_id
}

pub proof fn lemma_broadcast(
    net: NetView,
    out: Seq<Outgoing>,
    ids: Seq<Seq<char>>,
    text: Seq<char>,
)
    requires
        ids.no_duplicates(),
        crate::events::outgoing(out) == crate::transport::send::controls_to(net, ids, text),
    ensures
        is_broadcast(net, out, ids.to_set(), text),
{
    let views = crate::events::outgoing(out);
    assert(views.len() == out.len() && views.len() == ids.len());
    assert forall|i: int| 0 <= i < out.len() implies (#[trigger] out[i])@.node_id == ids[i]
        && is_control_to(net, out[i]@, ids[i], text) by {
        assert(views[i] == out[i]@);
        assert(views[i] == crate::transport::send::control_to(net, ids[i], text));
    }
    assert forall|id: Seq<char>| #[trigger] ids.to_set().contains(id) implies exists|i: int|
        0 <= i < out.len() && (#[trigger] out[i])@.node_id == id by {
        let i = ids.index_of(id);
        assert(ids.contains(id));
        assert(out[i]@.node_id == id);
    }
    assert forall|i: int| 0 <= i < out.len() implies ids.to_set().contains(
        (#[trigger] out[i])@.node_id,
    ) by {
        assert(ids.contains(ids[i]));
    }
}

/// A broadcast reaches every known peer once, and nobody else.
pub proof fn law_broadcast(ctx: NetCtx, text: &str, r: Vec<Outgoing>)
    requires
        ctx.peers.wf(),
        call_ensures(broadcast_control, (&ctx, text), r),
    ensures
        is_broadcast(ctx@, r@, ctx@.peers.dom(), text@),
{
    ctx.peers.law_lists_the_map();
    lemma_broadcast(ctx@, r@, ctx.peers.keys_spec(), text@);
}

/// An envelope goes into the peer's link, to its TCP port or to its UDP port, as the protocol
/// says; without a link, a known peer with an address, or a known protocol it does not go,
/// and the error says which.
pub proof fn law_envelope_is_routed(
    ctx: NetCtx,
    node_id: &str,
    proto: &str,
    env: Envelope,
    ip: Ipv4,
    r: Result<Dispatch, String>,
)
    requires
        call_ensures(route_over, (&ctx, node_id, proto, env), r),
    ensures
        proto@ == "WS"@ && ctx@.ws_conns.contains_key(node_id@) ==> (r matches Ok(d) && d@ == (
        DispatchView::Ws { conn: ctx@.ws_conns[node_id@], env: env@ })),
        proto@ == "WS"@ && !ctx@.ws_conns.contains_key(node_id@) ==> (r matches Err(t) && t@
            == "no WebSocket connection — trigger 'Connect (WS)' first"@),
        proto@ != "WS"@ && !ctx@.peers.contains_key(node_id@) ==> (r matches Err(t) && t@
            == "peer not found"@),
        proto@ != "WS"@ && ctx@.peers.contains_key(node_id@) && (forall|x: Ipv4|
            #[trigger] dotted(x) != ctx@.peers[node_id@].ip) ==> (r matches Err(t) && t@
            == "bad peer ip"@),
        ctx@.peers.contains_key(node_id@) && ctx@.peers[node_id@].ip == dotted(ip) ==> {
            &&& proto@ == "TCP"@ ==> (r matches Ok(d) && d@ == (DispatchView::Tcp {
                to: Endpoint { ip, port: ctx@.peers[node_id@].tcp_port },
                env: env@,
            }))
            &&& proto@ == "UDP"@ ==> (r matches Ok(d) && d@ == (DispatchView::Udp {
                to: Endpoint { ip, port: ctx@.peers[node_id@].udp_port },
                env: env@,
            }))
            &&& proto@ != "WS"@ && proto@ != "TCP"@ && proto@ != "UDP"@ ==> (r matches Err(t) && t@
                == "unknown protocol: "@ + proto@)
        },
{
    law_ipv4_round_trip(ip);
    reveal_strlit("UDP");
    reveal_strlit("TCP");
    reveal_strlit("WS");
    assert("UDP"@.len() == 3 && "TCP"@.len() == 3 && "WS"@.len() == 2);
    assert("UDP"@[0] == 'U' && "TCP"@[0] == 'T');
}

/// What is sent is the plaintext, sealed under this device's key and the nonce, and it takes
/// the way that an envelope takes over the protocol in capitals.
pub proof fn law_payload_is_sealed_and_routed(
    ctx: NetCtx,
    nonce: [u8; 24],
    plaintext: &[u8],
    node_id: &str,
    protocol: &str,
    proto: &str,
    env: Envelope,
    r: Result<Dispatch, String>,
    routed: Result<Dispatch, String>,
)
    requires
        call_ensures(send_payload_with, (&ctx, &nonce, plaintext, node_id, protocol), r),
        plaintext@.len() <= MAX_PLAINTEXT,
        proto@ == uppercase(protocol@),
        ctx@.key matches Some(key) ==> env@ == (EnvelopeView {
            nonce: base64_text(nonce@),
            ciphertext: base64_text(sealed(key, nonce@, plaintext@)),
        }),
        call_ensures(route_over, (&ctx, node_id, proto, env), routed),
    ensures
        ctx@.key is None ==> (r matches Err(t) && t@ == "set your encryption key first"@),
        ctx@.key is Some ==> {
            &&& r is Ok <==> routed is Ok
            &&& r matches Ok(d) ==> routed matches Ok(s) && d@ == s@
            &&& r matches Err(t) ==> routed matches Err(u) && t@ == u@
        },
{
}

/// The envelope that a dispatch carries.
pub open spec fn carried(d: DispatchView) -> EnvelopeView {
    match d {
        DispatchView::Ws { env, .. } => env,
        DispatchView::Tcp { env, .. } => env,
        DispatchView::Udp { env, .. } => env,
    }
}

/// What one device sends under a fresh nonce, any device with the same key opens, and finds
/// the plaintext; a device without a key opens nothing and sends nothing.
pub proof fn law_sent_payload_is_opened(
    here: NetCtx,
    there: NetCtx,
    plaintext: &[u8],
    node_id: &str,
    protocol: &str,
    sent: Result<Dispatch, String>,
    env: Envelope,
    got: Option<Vec<u8>>,
)
    requires
        call_ensures(send_payload, (&here, plaintext, node_id, protocol), sent),
        sent matches Ok(d) ==> env@ == carried(d@),
        call_ensures(open_incoming, (&there, &env), got),
    ensures
        here@.key is None ==> (sent matches Err(t) && t@ == "set your encryption key first"@),
        there@.key is None ==> got is None,
        sent is Ok && there@.key == here@.key ==> (got matches Some(bytes) && bytes@ == plaintext@),
{
    if let Ok(d) = sent {
        assert(carried(d@) == d@.envelope());
    }
}

/// A received envelope opens to what its bytes open to under this device's key.
pub proof fn law_incoming_is_opened(
    ctx: NetCtx,
    env: Envelope,
    nonce: Seq<u8>,
    ciphertext: Seq<u8>,
    r: Option<Vec<u8>>,
)
    requires
        call_ensures(open_incoming, (&ctx, &env), r),
        env@.nonce == base64_text(nonce),
        env@.ciphertext == base64_text(ciphertext),
    ensures
        ctx@.key is None ==> r is None,
        nonce.len() != 24 ==> r is None,
        ctx@.key matches Some(key) ==> nonce.len() == 24 && ciphertext.len() <= MAX_PLAINTEXT + 16
            ==> match r {
            Some(bytes) => opened(key, nonce, ciphertext) == Some(bytes@),
            None => opened(key, nonce, ciphertext) is None,
        },
{
    law_base64_round_trip(nonce);
    law_base64_round_trip(ciphertext);
}

/// What could not be decrypted is locked, whatever else is said of it; what could be is the
/// message that it was parsed into, or garbled.
pub proof fn law_classified(decrypted: Option<Vec<u8>>, parsed: Option<Plaintext>, r: Opened)
    requires
        call_ensures(classify, (&decrypted, parsed), r),
    ensures
        r is Locked <==> decrypted is None,
        r is Garbled <==> decrypted is Some && parsed is None,
        r matches Opened::Message(m) ==> parsed == Some(m),
        decrypted is Some && parsed is Some ==> r is Message,
{
}

/// A chat message is shown with its sender's name and its words, and with where and when it
/// came; one that cannot be opened is shown as such.
pub proof fn law_message_is_shown(
    msg: Option<Plaintext>,
    ip: String,
    protocol: &str,
    now: u64,
    r: IncomingMessage,
)
    requires
        call_ensures(envelope_to_message, (msg, ip, protocol, now), r),
    ensures
        r@.ip == ip@,
        r@.protocol == protocol@,
        r@.ts == now,
        r@.ok <==> msg is Some,
        msg matches Some(m) ==> r@.from == m.from@ && r@.text == m.text@,
        msg is None ==> r@.from == "(unknown)"@ && r@.text
            == "🔒 message could not be decrypted (wrong encryption key)"@,
{
}

/// What is received is shown, or handled by the feature it is for, or was no message: a
/// locked envelope is shown as such, a garbled one passed over, and a message handed to the
/// features and, if none claims it, shown as chat. Only a feature changes the state.
pub proof fn law_received(
    ctx: &mut NetCtx,
    control: ControlRegistry<Feature>,
    caps: Capabilities,
    now: u64,
    opened: Opened,
    ip: String,
    protocol: &str,
    r: Vec<Effect>,
)
    requires
        control@ == default_handlers(),
        call_ensures(
            handle_incoming::<Feature>,
            (ctx, &control, caps, now, opened, ip, protocol),
            r,
        ),
    ensures
        opened is Locked ==> {
            &&& final(ctx)@ == old(ctx)@
            &&& effects(r@) == seq![
                EffectView::Emit(
                    EventView::MessageReceived(
                        IncomingView {
                            from: "(unknown)"@,
                            ip: ip@,
                            protocol: protocol@,
                            text: "🔒 message could not be decrypted (wrong encryption key)"@,
                            ts: now,
                            ok: false,
                        },
                    ),
                ),
            ]
        },
        opened is Garbled ==> final(ctx)@ == old(ctx)@ && effects(r@).len() == 0,
        opened matches Opened::Message(m) ==> {
            let claim = dispatched(
                default_handlers(),
                old(ctx)@,
                caps,
                now,
                (m.from@, ip@, protocol@),
                m.text@,
            );
            &&& claim matches Some(o) ==> final(ctx)@ == o.0 && effects(r@) == o.1
            &&& claim is None ==> final(ctx)@ == old(ctx)@ && effects(r@) == seq![
                EffectView::Emit(
                    EventView::MessageReceived(
                        IncomingView {
                            from: m.from@,
                            ip: ip@,
                            protocol: protocol@,
                            text: m.text@,
                            ts: now,
                            ok: true,
                        },
                    ),
                ),
            ]
        },
{
}

} // verus!
