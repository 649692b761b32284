use mdcore::crypto::decrypt;
use mdcore::engine::NetCtx;
use mdcore::events::{CoreEvent, Effect};
use mdcore::model::{Envelope, Identity, Peer, Source, WsFrame};
use mdcore::net::{Endpoint, Ipv4};
use mdcore::signal::Candidate;
use mdcore::transport::chunk::{chunk_datagrams, Reassembler};
use mdcore::transport::incoming::open_incoming;
use mdcore::transport::punch::{
    gather_candidates, punch_ping, punch_pong, to_addrs, ConfirmIn, ConfirmTick, LinkIn, PunchLink, PunchTarget,
    RoundTrip,
};
use mdcore::transport::rtc::{read_wait, RtcEvent, RtcLink, RtcReply};
use mdcore::transport::send::{route_over, send_payload_with, Dispatch};
use mdcore::transport::ws::{hello, ws_connect, WsInput, WsReply, WsSession};
use mdcore::transport::{
    best_proto, broadcast_control, drop_live, live_peers, live_snapshot, mark_live, send_control_to, send_payload,
    touch_live, TransportKind,
};

fn device(node_id: &str) -> NetCtx {
    NetCtx::new(Identity {
        node_id: node_id.to_string(),
        name: "laptop".to_string(),
        ip: "10.0.0.1".to_string(),
        tcp_port: 1,
        udp_port: 2,
        ws_port: 3,
    })
}

fn peer(node_id: &str, ip: &str) -> Peer {
    Peer {
        node_id: node_id.to_string(),
        name: node_id.to_string(),
        ip: ip.to_string(),
        tcp_port: 11,
        udp_port: 12,
        ws_port: 13,
        source: Source::Lan,
        ws_open: false,
        inbound_blocked: false,
        reflexive_ip: None,
        reflexive_udp_port: None,
    }
}

fn at(d: u8, port: u16) -> Endpoint {
    Endpoint::new(Ipv4::new(10, 0, 0, d), port)
}

#[test]
fn links_live_and_die() {
    let mut ctx = device("me");
    let out = mark_live(&mut ctx, "p", TransportKind::Punch, Some(at(2, 5)), 10);
    assert!(matches!(
        &out[0],
        Effect::Emit(CoreEvent::PeerConnected { node_id, transport: TransportKind::Punch }) if node_id == "p"
    ));
    // A refresh neither tells again nor changes the transport; it keeps a known address.
    assert!(mark_live(&mut ctx, "p", TransportKind::Udp, None, 20).is_empty());
    assert_eq!(live_peers(&ctx), vec![("p".to_string(), TransportKind::Punch, Some(at(2, 5)))]);
    assert!(mark_live(&mut ctx, "p", TransportKind::Udp, Some(at(3, 6)), 25).is_empty());
    assert_eq!(live_peers(&ctx)[0].2, Some(at(3, 6)));
    touch_live(&mut ctx, "p", 30);
    touch_live(&mut ctx, "q", 30);
    assert_eq!(live_snapshot(&ctx), vec![("p".to_string(), TransportKind::Punch, 30)]);
    let out = drop_live(&mut ctx, "p");
    assert!(matches!(&out[0], Effect::Emit(CoreEvent::PeerDisconnected { node_id }) if node_id == "p"));
    assert!(drop_live(&mut ctx, "p").is_empty());
}

#[test]
fn live_channel_wins() {
    let mut ctx = device("me");
    assert_eq!(best_proto(&ctx.ws_conns, "UDP", "p"), "UDP");
    assert_eq!(best_proto(&ctx.ws_conns, " tCp ", "p"), "TCP");
    assert_eq!(best_proto(&ctx.ws_conns, "carrier pigeon", "p"), "UDP");
    ctx.ws_conns.insert("p".to_string(), 1);
    assert_eq!(best_proto(&ctx.ws_conns, "TCP", "p"), "WS");
    assert_eq!(best_proto(&ctx.ws_conns, "TCP", "q"), "TCP");
}

#[test]
fn broadcast_goes_to_every_peer() {
    let mut ctx = device("me");
    ctx.peers.insert("p".to_string(), peer("p", "10.0.0.2"));
    ctx.peers.insert("q".to_string(), peer("q", "10.0.0.3"));
    ctx.ws_conns.insert("q".to_string(), 1);
    let out = broadcast_control(&ctx, "{}");
    let to: Vec<(&str, &str)> = out.iter().map(|o| (o.node_id.as_str(), o.protocol.as_str())).collect();
    assert_eq!(to, vec![("p", "UDP"), ("q", "WS")]);
    let one = send_control_to(&ctx, "p", "{}");
    assert_eq!((one.from.as_str(), one.text.as_str()), ("laptop", "{}"));
}

#[test]
fn payloads_are_routed() {
    let mut ctx = device("me");
    ctx.key = Some([7; 32]);
    ctx.peers.insert("p".to_string(), peer("p", "10.0.0.2"));
    ctx.ws_conns.insert("q".to_string(), 5);
    match send_payload(&ctx, b"hello", "p", "udp") {
        Ok(Dispatch::Udp { to, env }) => {
            assert_eq!(to, at(2, 12));
            assert_eq!(decrypt(&[7; 32], &env).unwrap(), b"hello");
            // Another device with the same key opens it.
            let mut other = device("other");
            assert!(open_incoming(&other, &env).is_none());
            other.key = Some([7; 32]);
            assert_eq!(open_incoming(&other, &env).unwrap(), b"hello");
        }
        _ => panic!("expected a datagram"),
    }
    assert!(matches!(send_payload(&ctx, b"hello", "p", "TCP"), Ok(Dispatch::Tcp { to, .. }) if to == at(2, 11)));
    assert!(matches!(send_payload(&ctx, b"hello", "q", "ws"), Ok(Dispatch::Ws { conn: 5, .. })));
    match send_payload_with(&ctx, &[0; 24], b"hello", "p", "UDP") {
        Ok(Dispatch::Udp { env, .. }) => assert_eq!(env.nonce, "A".repeat(32)),
        _ => panic!("expected a datagram"),
    }
}

#[test]
fn envelopes_are_routed() {
    let mut ctx = device("me");
    ctx.peers.insert("p".to_string(), peer("p", "10.0.0.2"));
    ctx.ws_conns.insert("q".to_string(), 5);
    let env = || Envelope { nonce: "n".to_string(), ciphertext: "c".to_string() };
    match route_over(&ctx, "q", "WS", env()) {
        Ok(Dispatch::Ws { conn: 5, env }) => assert_eq!((env.nonce.as_str(), env.ciphertext.as_str()), ("n", "c")),
        _ => panic!("expected a frame"),
    }
    assert!(matches!(route_over(&ctx, "p", "TCP", env()), Ok(Dispatch::Tcp { to, .. }) if to == at(2, 11)));
    assert!(matches!(route_over(&ctx, "p", "UDP", env()), Ok(Dispatch::Udp { to, .. }) if to == at(2, 12)));
    // The protocol is taken as it is.
    assert!(matches!(route_over(&ctx, "p", "udp", env()), Err(e) if e == "unknown protocol: udp"));
    assert!(matches!(route_over(&ctx, "q", "UDP", env()), Err(e) if e == "peer not found"));
}

#[test]
fn payloads_that_cannot_go() {
    let mut ctx = device("me");
    let why = |r: Result<Dispatch, String>| match r {
        Ok(_) => panic!("expected an error"),
        Err(e) => e,
    };
    assert_eq!(why(send_payload(&ctx, b"x", "p", "UDP")), "set your encryption key first");
    ctx.key = Some([7; 32]);
    assert_eq!(
        why(send_payload(&ctx, b"x", "p", "WS")),
        "no WebSocket connection — trigger 'Connect (WS)' first"
    );
    assert_eq!(
        why(send_payload(&ctx, b"x", "p", "ws")),
        "no WebSocket connection — trigger 'Connect (WS)' first"
    );
    assert_eq!(why(send_payload(&ctx, b"x", "p", "UDP")), "peer not found");
    assert_eq!(why(send_payload(&ctx, b"x", "p", "smoke")), "peer not found");
    ctx.peers.insert("p".to_string(), peer("p", "fe80::1"));
    assert_eq!(why(send_payload(&ctx, b"x", "p", "UDP")), "bad peer ip");
    ctx.peers.insert("p".to_string(), peer("p", "10.0.0.2"));
    assert_eq!(why(send_payload(&ctx, b"x", "p", "smoke")), "unknown protocol: SMOKE");
    assert_eq!(why(send_payload(&ctx, b"x", "p", "stra\u{df}e-1")), "unknown protocol: STRASSE-1");
    assert_eq!(why(send_payload_with(&ctx, &[0; 24], b"x", "p", "smoke")), "unknown protocol: SMOKE");
}

#[test]
fn chunks_reassemble_in_any_order() {
    let data: Vec<u8> = (0..3000u32).map(|i| i as u8).collect();
    let mut pkts = chunk_datagrams(9, &data);
    assert_eq!(pkts.len(), 3);
    assert_eq!(pkts[1][..12], [b'm', b'd', b'c', b'k', 0, 0, 0, 9, 0, 3, 0, 1]);
    pkts.reverse();
    let mut r = Reassembler::new();
    assert!(r.reasm_feed(&pkts[0]).is_none());
    assert!(r.reasm_feed(&pkts[0]).is_none());
    assert!(r.reasm_feed(b"noise").is_none());
    assert!(r.reasm_feed(&pkts[1]).is_none());
    assert_eq!(r.reasm_feed(&pkts[2]).unwrap(), data);
    // Nothing stays behind: the same message can come again.
    assert!(r.reasm_feed(&pkts[2]).is_none());
    let empty = chunk_datagrams(1, b"");
    assert_eq!(empty.len(), 1);
    assert_eq!(r.reasm_feed(&empty[0]).unwrap(), Vec::<u8>::new());
}

#[test]
fn chunks_that_make_no_sense() {
    let mut r = Reassembler::new();
    let zero_total = [b'm', b'd', b'c', b'k', 0, 0, 0, 1, 0, 0, 0, 0, 1];
    let index_too_high = [b'm', b'd', b'c', b'k', 0, 0, 0, 1, 0, 1, 0, 1, 1];
    assert!(r.reasm_feed(&zero_total).is_none());
    assert!(r.reasm_feed(&index_too_high).is_none());
    // The total may not change within a message.
    let first = [b'm', b'd', b'c', b'k', 0, 0, 0, 1, 0, 2, 0, 0, 7];
    let other = [b'm', b'd', b'c', b'k', 0, 0, 0, 1, 0, 1, 0, 0, 7];
    assert!(r.reasm_feed(&first).is_none());
    assert!(r.reasm_feed(&other).is_none());
    let last = [b'm', b'd', b'c', b'k', 0, 0, 0, 1, 0, 2, 0, 1, 8];
    assert_eq!(r.reasm_feed(&last).unwrap(), vec![7, 8]);
}

#[test]
fn stalled_messages_are_shed() {
    let mut r = Reassembler::new();
    for id in 0..257u32 {
        let pkts = chunk_datagrams(id, &[0; 1025]);
        assert!(r.reasm_feed(&pkts[0]).is_none());
    }
    // The 257th new message shed all the others.
    let old = chunk_datagrams(0, &[0; 1025]);
    assert!(r.reasm_feed(&old[1]).is_none());
    let young = chunk_datagrams(256, &[0; 1025]);
    assert_eq!(r.reasm_feed(&young[1]).unwrap().len(), 1025);
}

#[test]
fn ws_session_from_hello_to_close() {
    let mut ctx = device("me");
    assert!(matches!(hello(&ctx), WsFrame::Hello { node_id, name } if node_id == "me" && name == "laptop"));
    let mut s = WsSession::new(1);
    let out = s.on_hello(&mut ctx, "p".to_string(), 9).unwrap();
    assert!(matches!(&out[0], Effect::Emit(CoreEvent::WsConnected { node_id }) if node_id == "p"));
    assert!(matches!(
        &out[1],
        Effect::Emit(CoreEvent::PeerConnected { transport: TransportKind::Ws, .. })
    ));
    // A message is delivered; noise is passed over.
    let msg = WsFrame::Msg { nonce: "n".to_string(), ciphertext: "c".to_string() };
    assert!(matches!(
        s.on_input(&mut ctx, WsInput::Frame(msg), 9),
        WsReply::Deliver(env) if env.nonce == "n" && env.ciphertext == "c"
    ));
    assert!(matches!(s.on_input(&mut ctx, WsInput::Idle, 9), WsReply::Nothing));
    assert!(matches!(s.on_input(&mut ctx, WsInput::Closed, 9), WsReply::Stop));
    // A duplicate is refused and takes nothing down.
    let mut dup = WsSession::new(2);
    let again = WsFrame::Hello { node_id: "p".to_string(), name: "x".to_string() };
    assert!(matches!(dup.on_input(&mut ctx, WsInput::Frame(again), 9), WsReply::Stop));
    assert!(dup.on_close(&mut ctx).is_empty());
    assert_eq!(ctx.ws_conns.get("p"), Some(&1));
    let out = s.on_close(&mut ctx);
    assert!(matches!(&out[0], Effect::Emit(CoreEvent::WsDisconnected { node_id }) if node_id == "p"));
    assert!(matches!(&out[1], Effect::Emit(CoreEvent::PeerDisconnected { node_id }) if node_id == "p"));
    assert_eq!(ctx.ws_conns.len() + ctx.p2p_conns.len(), 0);
}

#[test]
fn ws_close_spares_a_newer_link() {
    let mut ctx = device("me");
    let mut s = WsSession::new(1);
    s.on_hello(&mut ctx, "p".to_string(), 9);
    ctx.ws_conns.insert("p".to_string(), 2_000_000);
    assert!(s.on_close(&mut ctx).is_empty());
    assert_eq!(ctx.ws_conns.get("p"), Some(&2_000_000));
    assert!(ctx.p2p_conns.contains_key("p"));
}

#[test]
fn ws_targets() {
    assert_eq!(ws_connect("10.0.0.2", 80).unwrap(), (at(2, 80), "ws://10.0.0.2:80/".to_string()));
    assert_eq!(ws_connect("host", 80).unwrap_err(), "bad peer ip");
}

#[test]
fn candidates_of_a_device() {
    let mut ctx = device("me");
    let c = gather_candidates(&ctx, 4000, Some(at(9, 5000))).unwrap();
    assert_eq!(c.len(), 2);
    assert_eq!((c[0].ip.as_str(), c[0].port, c[0].kind.as_str()), ("10.0.0.1", 4000, "host"));
    assert_eq!((c[1].ip.as_str(), c[1].port, c[1].kind.as_str()), ("10.0.0.9", 5000, "srflx"));
    ctx.identity.ip = "0.0.0.0".to_string();
    assert!(gather_candidates(&ctx, 4000, None).is_none());
    assert_eq!(gather_candidates(&ctx, 4000, Some(at(9, 5000))).unwrap().len(), 1);
    ctx.identity.ip = "".to_string();
    assert!(gather_candidates(&ctx, 4000, None).is_none());
}

#[test]
fn candidates_as_targets() {
    let c = |ip: &str| Candidate { ip: ip.to_string(), port: 7, kind: "host".to_string() };
    let t = to_addrs(&vec![c("10.0.0.2"), c("nonsense"), c("[::1]"), c("")]);
    assert_eq!(t.len(), 2);
    assert!(matches!(&t[0], PunchTarget::V4(e) if *e == at(2, 7)));
    assert!(matches!(&t[1], PunchTarget::Bracketed(s) if s == "[::1]:7"));
}

#[test]
fn offered_candidates_are_found() {
    let c = gather_candidates(&device("me"), 4000, Some(at(9, 5000))).unwrap();
    let t = to_addrs(&c);
    assert!(matches!(&t[0], PunchTarget::V4(e) if *e == at(1, 4000)));
    assert!(matches!(&t[1], PunchTarget::V4(e) if *e == at(9, 5000)));
}

#[test]
fn probes_are_no_chunks() {
    let mut r = Reassembler::new();
    assert!(r.reasm_feed(&punch_ping()).is_none());
    assert!(r.reasm_feed(&punch_pong()).is_none());
    for pkt in chunk_datagrams(0x70756e63, b"mdpunch1") {
        assert_ne!(pkt[..], punch_ping()[..]);
        assert_ne!(pkt[..], punch_pong()[..]);
    }
}

#[test]
fn only_a_pong_proves_the_round_trip() {
    let mut r = RoundTrip::new(0, at(2, 5));
    assert_eq!(r.tick(0), ConfirmTick::Wait { ping: Some(at(2, 5)) });
    assert_eq!(r.tick(149), ConfirmTick::Wait { ping: None });
    assert_eq!(r.on_packet(&punch_ping(), at(3, 6)), ConfirmIn::Reply(at(3, 6)));
    assert_eq!(r.tick(150), ConfirmTick::Wait { ping: Some(at(3, 6)) });
    assert_eq!(r.on_packet(b"mdpunch1x", at(4, 7)), ConfirmIn::Other);
    assert_eq!(r.on_packet(&punch_pong(), at(4, 7)), ConfirmIn::Proven(at(4, 7)));
    assert_eq!(r.tick(3000), ConfirmTick::Expired);
    assert_eq!(punch_ping(), *b"mdpunch1");
    assert_eq!(punch_pong(), *b"mdpong01");
}

#[test]
fn punched_link() {
    let mut a = device("a");
    let mut b = device("b");
    let (mut la, out) = PunchLink::establish(&mut a, "b", 1_000_000, at(2, 5), 10, 0).unwrap();
    assert!(matches!(
        &out[0],
        Effect::Emit(CoreEvent::PeerConnected { transport: TransportKind::Punch, .. })
    ));
    assert!(PunchLink::establish(&mut a, "b", 1_000_001, at(2, 5), 10, 0).is_none());
    let (mut lb, _) = PunchLink::establish(&mut b, "a", 1_000_000, at(1, 5), 10, 0).unwrap();
    let frame = "x".repeat(2500);
    let pkts = la.send_frame(&frame);
    assert_eq!(pkts.len(), 3);
    assert!(matches!(lb.on_packet(&mut b, &pkts[2], at(1, 5), 11), LinkIn::Other));
    assert!(matches!(lb.on_packet(&mut b, &punch_ping(), at(1, 6), 12), LinkIn::Ping));
    assert_eq!(lb.peer, at(1, 6));
    assert!(matches!(lb.on_packet(&mut b, &pkts[0], at(1, 7), 13), LinkIn::Other));
    assert_eq!(lb.peer, at(1, 6));
    match lb.on_packet(&mut b, &pkts[1], at(1, 7), 14) {
        LinkIn::Frame(bytes) => assert_eq!(bytes, frame.as_bytes()),
        _ => panic!("expected the frame"),
    }
    assert_eq!(lb.peer, at(1, 7));
    assert_eq!(live_snapshot(&b)[0].2, 14);
    assert!(matches!(lb.on_packet(&mut b, &punch_pong(), at(1, 7), 15), LinkIn::Pong));
    // Message ids follow one another.
    assert_eq!(la.send_frame("y")[0][4..8], [0, 0, 0, 1]);
    assert!(!la.keepalive(2999));
    assert!(la.keepalive(3000));
    assert!(!la.keepalive(3001));
    assert!(la.still_up(&a));
    drop_live(&mut a, "b");
    assert!(!la.still_up(&a));
    assert!(la.end(&mut a).is_empty());
    assert!(!a.ws_conns.contains_key("b"));
    let out = lb.end(&mut b);
    assert!(matches!(&out[0], Effect::Emit(CoreEvent::PeerDisconnected { node_id }) if node_id == "a"));
}

#[test]
fn webrtc_link() {
    let mut ctx = device("me");
    ctx.ws_conns.insert("p".to_string(), 1);
    let mut l = RtcLink::new("p".to_string(), 2_000_000);
    assert!(l.still_up(&ctx));
    assert!(l.cleanup(&mut ctx).is_empty());
    assert_eq!(ctx.ws_conns.get("p"), Some(&1));
    let out = match l.on_event(&mut ctx, RtcEvent::Opened, 5) {
        RtcReply::Perform(out) => out,
        _ => panic!("expected effects"),
    };
    assert!(matches!(
        &out[0],
        Effect::Emit(CoreEvent::PeerConnected { transport: TransportKind::WebRtc, .. })
    ));
    assert_eq!(ctx.ws_conns.get("p"), Some(&2_000_000));
    assert!(l.on_channel_open(&mut ctx, 6).is_empty());
    assert!(matches!(l.on_event(&mut ctx, RtcEvent::Data(vec![1]), 6), RtcReply::Deliver(b) if b == vec![1]));
    assert!(matches!(l.on_event(&mut ctx, RtcEvent::Closed, 6), RtcReply::Disconnect));
    assert!(matches!(l.on_event(&mut ctx, RtcEvent::Other, 6), RtcReply::Nothing));
    assert!(matches!(l.on_event(&mut ctx, RtcEvent::Failed, 6), RtcReply::Stop));
    assert!(l.still_up(&ctx));
    assert_eq!(l.cleanup(&mut ctx).len(), 1);
    assert!(!l.still_up(&ctx));
    assert_eq!(read_wait(100, 100), 1);
    assert_eq!(read_wait(150, 100), 50);
    assert_eq!(read_wait(1000, 100), 250);
}
