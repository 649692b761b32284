use mdcore::discovery::{beacon, lan_targets, mcast_group, on_beacon, DISCOVERY_PORT};
use mdcore::engine::NetCtx;
use mdcore::events::{CoreEvent, Effect};
use mdcore::model::{Beacon, Identity, Source};
use mdcore::net::{Endpoint, Ipv4};
use mdcore::platform::IfaceMode;
use mdcore::traversal::punch::{is_probe, HolePunch, PunchTick};
use mdcore::traversal::stun::{binding_request, binding_request_for, parse_mapped};

fn identity(node_id: &str) -> Identity {
    Identity {
        node_id: node_id.to_string(),
        name: "laptop".to_string(),
        ip: "192.168.1.7".to_string(),
        tcp_port: 1,
        udp_port: 2,
        ws_port: 3,
    }
}

#[test]
fn ipv4_text() {
    let ip = Ipv4::parse("10.0.255.3").unwrap();
    assert_eq!((ip.a, ip.b, ip.c, ip.d), (10, 0, 255, 3));
    assert_eq!(ip.to_text(), "10.0.255.3");
    for bad in ["", "1.2.3", "1.2.3.4.5", "256.1.1.1", "01.2.3.4", "1.2.3.4 ", "a.b.c.d", "::1"] {
        assert!(Ipv4::parse(bad).is_none(), "{bad}");
    }
    assert!(Ipv4::new(127, 9, 9, 9).is_loopback());
    assert!(!Ipv4::new(128, 0, 0, 1).is_loopback());
    assert!(Ipv4::new(0, 0, 0, 0).is_unspecified());
    assert!(!Ipv4::new(0, 0, 0, 1).is_unspecified());
}

#[test]
fn lan_targets_of_one_interface() {
    let t = lan_targets(&IfaceMode::Single(Ipv4::new(192, 168, 1, 7)));
    // Multicast, global broadcast, subnet broadcast, and every other host.
    assert_eq!(t.len(), 3 + 253);
    assert_eq!(t[0], Endpoint::new(mcast_group(), DISCOVERY_PORT));
    assert_eq!(t[0], Endpoint::new(Ipv4::new(239, 255, 42, 98), 45678));
    assert_eq!(t[1], Endpoint::new(Ipv4::new(255, 255, 255, 255), 45678));
    assert_eq!(t[2], Endpoint::new(Ipv4::new(192, 168, 1, 255), 45678));
    assert_eq!(t[3], Endpoint::new(Ipv4::new(192, 168, 1, 1), 45678));
    assert!(!t.contains(&Endpoint::new(Ipv4::new(192, 168, 1, 7), 45678)));
    assert_eq!(*t.last().unwrap(), Endpoint::new(Ipv4::new(192, 168, 1, 254), 45678));
}

#[test]
fn lan_targets_skip_loopback_and_unspecified() {
    let mode = IfaceMode::All {
        v4_addrs: vec![Ipv4::new(127, 0, 0, 1), Ipv4::new(0, 0, 0, 0), Ipv4::new(10, 0, 0, 255)],
    };
    let t = lan_targets(&mode);
    assert_eq!(t.len(), 3 + 254);
}

#[test]
fn scan_discovers_both_directions() {
    let mut a = NetCtx::new(identity("a"));
    let mut b = NetCtx::new(identity("b"));
    let (told, answer) = on_beacon(&mut b, beacon(&a.identity, false), "10.0.0.1".to_string()).unwrap();
    assert!(answer);
    assert_eq!(told.len(), 1);
    match &told[0] {
        Effect::Emit(CoreEvent::PeersUpdated { peers }) => {
            assert_eq!(peers.len(), 1);
            assert_eq!(peers[0].node_id, "a");
            assert_eq!(peers[0].ip, "10.0.0.1");
            assert_eq!(peers[0].source, Source::Lan);
        }
        _ => panic!("expected a peer list"),
    }
    let (_, again) = on_beacon(&mut a, beacon(&b.identity, true), "10.0.0.2".to_string()).unwrap();
    assert!(!again);
    assert_eq!(a.peers.get("b").unwrap().tcp_port, 1);
}

#[test]
fn own_beacon_is_ignored() {
    let mut a = NetCtx::new(identity("a"));
    let own = Beacon {
        node_id: "a".to_string(),
        name: "x".to_string(),
        tcp_port: 9,
        udp_port: 9,
        ws_port: 9,
        reply: false,
    };
    assert!(on_beacon(&mut a, own, "10.0.0.1".to_string()).is_none());
    assert_eq!(a.peers.len(), 0);
}

#[test]
fn stun_request_and_reply() {
    let req = binding_request_for(&[7; 12]);
    assert_eq!(req[..8], [0, 1, 0, 0, 0x21, 0x12, 0xa4, 0x42]);
    assert_eq!(req[8..], [7; 12]);
    let fresh = binding_request();
    assert_eq!(fresh.len(), 20);
    assert_ne!(fresh, binding_request());

    let mut reply = vec![1, 1, 0, 12, 0x21, 0x12, 0xa4, 0x42];
    reply.extend([7; 12]);
    // XOR-MAPPED-ADDRESS of 192.0.2.1:32853.
    reply.extend([0, 0x20, 0, 8, 0, 1, 0xa1, 0x47, 0xe1, 0x12, 0xa6, 0x43]);
    assert_eq!(parse_mapped(&reply), Some(Endpoint::new(Ipv4::new(192, 0, 2, 1), 32853)));
    // A padded attribute before a plain MAPPED-ADDRESS.
    let mut plain = vec![1, 1, 0, 20, 0x21, 0x12, 0xa4, 0x42];
    plain.extend([7; 12]);
    plain.extend([0x80, 0x22, 0, 3, b'a', b'b', b'c', 0]);
    plain.extend([0, 1, 0, 8, 0, 1, 0x12, 0x34, 1, 2, 3, 4]);
    assert_eq!(parse_mapped(&plain), Some(Endpoint::new(Ipv4::new(1, 2, 3, 4), 0x1234)));
}

#[test]
fn stun_reply_that_is_none() {
    assert_eq!(parse_mapped(&[]), None);
    let mut error = vec![1, 0x11, 0, 0, 0x21, 0x12, 0xa4, 0x42];
    error.extend([0; 12]);
    assert_eq!(parse_mapped(&error), None);
    let mut empty = vec![1, 1, 0, 0, 0x21, 0x12, 0xa4, 0x42];
    empty.extend([0; 12]);
    assert_eq!(parse_mapped(&empty), None);
}

#[test]
fn punch_probes_are_paced() {
    let mut p = HolePunch::new(1000, 200);
    assert_eq!(p.tick(1000), PunchTick::Wait { probe: true });
    assert_eq!(p.tick(1049), PunchTick::Wait { probe: false });
    assert_eq!(p.tick(1050), PunchTick::Wait { probe: true });
    assert_eq!(p.tick(1200), PunchTick::Expired);
    assert!(is_probe(b"mdpunch1", b"mdpunch1"));
    assert!(is_probe(b"mdpunch1 and more", b"mdpunch1"));
    assert!(!is_probe(b"mdpunch", b"mdpunch1"));
    assert!(!is_probe(b"mdpong01", b"mdpunch1"));
}
