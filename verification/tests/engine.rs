use mdcore::capabilities::Capabilities;
use mdcore::engine::ladder::{same_lan, Action, Event, Ladder, Stage};
use mdcore::engine::session::SavedSession;
use mdcore::engine::signals::{
    firewall_verdict, on_signal, punch_answer, sdp_answer, FirewallStatus, FirewallStep, SignalAction,
};
use mdcore::engine::watch::{clipboard_tick, heartbeat_tick, network_tick};
use mdcore::engine::{Apps, DISCO_PORT};
use mdcore::events::{CoreEvent, Effect};
use mdcore::messages::{bare_message, clipboard_message, notification_message};
use mdcore::model::Source;
use mdcore::net::{Endpoint, Ipv4};
use mdcore::platform::IfaceMode;
use mdcore::registry::{ProbeResult, RegistryDevice, TokenResp};
use mdcore::signal::{Candidate, Signal};
use mdcore::transport::{mark_live, TransportKind};
use mdcore::Engine;

const ALL: Capabilities = Capabilities { clipboard: true, notifier: true };
const BARE: Capabilities = Capabilities { clipboard: false, notifier: false };

fn engine() -> Engine {
    Engine::start("me".to_string(), "laptop".to_string(), "192.168.1.7".to_string(), 1, 2, 3)
}

fn logged_in() -> Engine {
    let mut e = engine();
    let _ = e.finish_auth(
        "https://s/auth/login",
        TokenResp { token: "tok".to_string(), username: "ann".to_string() },
    );
    e
}

fn listed(node_id: &str, ip: &str) -> RegistryDevice {
    RegistryDevice {
        node_id: node_id.to_string(),
        name: node_id.to_string(),
        ip: ip.to_string(),
        tcp_port: 11,
        udp_port: 12,
        ws_port: 13,
        ws_open: true,
        inbound_blocked: false,
        reflexive_ip: None,
        reflexive_udp_port: Some(9),
    }
}

fn ids(e: &Engine) -> Vec<String> {
    e.get_peers().into_iter().map(|p| p.node_id).collect()
}

#[test]
fn node_ids() {
    assert_eq!(engine().identity().node_id, "me");
    let e = Engine::start(" \t".to_string(), "n".to_string(), "ip".to_string(), 1, 2, 3);
    let id = e.identity().node_id;
    assert_eq!(id.len(), 36);
    assert_eq!(id.as_bytes()[14], b'4');
    assert_eq!(id, id.to_lowercase());
    assert_ne!(
        id,
        Engine::start("".to_string(), "n".to_string(), "ip".to_string(), 1, 2, 3).identity().node_id
    );
    let spaced = Engine::start(" x".to_string(), "n".to_string(), "ip".to_string(), 1, 2, 3);
    assert_eq!(spaced.identity().node_id, " x");
    let given = Engine::start_as("r".to_string(), "n".to_string(), "ip".to_string(), 1, 2, 3);
    assert_eq!(given.identity().node_id, "r");
    assert_eq!((given.identity().name.as_str(), given.identity().ip.as_str()), ("n", "ip"));
    assert!(given.server_url.is_none() && given.token.is_none() && given.username.is_none());
    assert_eq!(DISCO_PORT, 45678);
}

#[test]
fn logging_in() {
    assert_eq!(Engine::auth_login(" ", "ann", "pw").map(|_| ()), Err("server URL is required".to_string()));
    let q = Engine::auth_login("https://s", " ann ", "pw").unwrap();
    assert_eq!(q.url, "https://s/auth/login");
    assert_eq!(q.body.unwrap(), r#"{"password":"pw","username":"ann"}"#);
    assert_eq!(Engine::auth_register("https://s", "ann", "pw").unwrap().url, "https://s/auth/register");

    let mut e = engine();
    let SavedSession { server_url, username } = e.finish_auth(
        " https://s/auth/login ",
        TokenResp { token: "tok".to_string(), username: "Ann".to_string() },
    );
    assert_eq!((server_url.as_str(), username.as_str()), ("https://s", "Ann"));
    let info = e.session_info();
    assert_eq!(info.username, Some("Ann".to_string()));
    assert_eq!(info.server_url, Some("https://s".to_string()));
    assert!(!info.has_key && !e.is_ready());
    assert_eq!(e.set_encryption_key("secret"), Ok(()));
    assert!(e.is_ready() && e.session_info().has_key);
    e.logout();
    assert!(!e.is_ready());
    assert_eq!(e.session_info().username, Some("Ann".to_string()));
    let saved = Engine::saved_session(None, Some("Ann".to_string()));
    assert_eq!((saved.server_url.as_str(), saved.username.as_str()), ("", "Ann"));
}

#[test]
fn keys_need_a_login_and_a_passphrase() {
    let mut e = engine();
    assert_eq!(e.set_encryption_key("x"), Err("log in first".to_string()));
    assert_eq!(e.dev_login(" ", "x"), Err("username and encryption key required".to_string()));
    assert_eq!(e.dev_login("ann", " "), Err("username and encryption key required".to_string()));
    assert_eq!(e.dev_login(" ann ", "secret"), Ok(()));
    assert_eq!(e.session_info().username, Some("ann".to_string()));
    assert_eq!(e.set_encryption_key("  "), Err("encryption key is required".to_string()));
    // Another device with the same credentials has the same key.
    let mut other = Engine::start("other".to_string(), "n".to_string(), "".to_string(), 4, 5, 6);
    assert_eq!(other.dev_login("ann", "secret"), Ok(()));
    assert!(e.net.key.is_some());
    assert_eq!(e.net.key, other.net.key);
    assert_eq!(e.generate_key().len(), 32);
    assert!(!e.generate_key().contains('='));
}

#[test]
fn changing_the_key() {
    let mut e = engine();
    assert_eq!(e.update_encryption_key("pw").map(|_| ()), Err("log in first".to_string()));
    e.dev_login("ann", "secret").unwrap();
    assert_eq!(e.update_encryption_key("pw").map(|_| ()), Err("no server".to_string()));
    let mut e = logged_in();
    let (user, q) = e.update_encryption_key("pw").unwrap();
    assert_eq!((user.as_str(), q.url.as_str()), ("ann", "https://s/auth/verify"));
    assert_eq!(e.finish_update_key("ann", "new", Err("down".to_string())), Err("down".to_string()));
    assert_eq!(e.finish_update_key("ann", "new", Ok(false)), Err("incorrect password".to_string()));
    assert_eq!(
        e.finish_update_key("ann", " ", Ok(true)),
        Err("new encryption key is required".to_string())
    );
    assert_eq!(e.net.key, None);
    assert_eq!(e.finish_update_key("ann", "new", Ok(true)), Ok(()));
    assert!(e.net.key.is_some());
}

#[test]
fn peers_come_and_go() {
    let mut e = engine();
    assert_eq!(
        e.add_manual_peer("x", "nowhere", 1, 2, 3).map(|_| ()),
        Err("invalid IPv4: nowhere".to_string())
    );
    assert!(e.add_manual_peer(" desk ", " 10.0.0.5 ", 1, 2, 3).is_ok());
    assert!(e.add_manual_peer("  ", "10.0.0.6", 1, 2, 3).is_ok());
    assert_eq!(ids(&e), vec!["manual:10.0.0.5".to_string(), "manual:10.0.0.6".to_string()]);
    assert_eq!(e.get_peers()[0].name, "desk");
    assert_eq!(e.get_peers()[1].name, "10.0.0.6");
    assert_eq!(e.get_peers()[0].source, Source::Manual);

    let out = e.apply_registry_peers(vec![listed("a", "10.0.0.1"), listed("b", "10.0.0.2")]);
    assert!(matches!(&out[0], Effect::Emit(CoreEvent::PeersUpdated { peers }) if peers.len() == 4));
    // The same answer again changes nothing.
    e.apply_registry_peers(vec![listed("a", "10.0.0.1"), listed("b", "10.0.0.2")]);
    assert_eq!(ids(&e).len(), 4);
    // A later answer replaces the registry's entries and keeps the others.
    e.apply_registry_peers(vec![listed("b", "10.0.0.9")]);
    assert_eq!(ids(&e).len(), 3);
    let b = e.net.peers.get("b").unwrap();
    assert_eq!((b.ip.as_str(), b.ws_open, b.reflexive_udp_port), ("10.0.0.9", true, Some(9)));
    let out = e.remove_peer("b");
    assert!(matches!(&out[0], Effect::Emit(CoreEvent::PeersUpdated { peers }) if peers.len() == 2));
}

#[test]
fn refreshing_from_the_server() {
    assert_eq!(
        engine().refresh_from_server(None, "desktop").map(|_| ()),
        Err("not logged in".to_string())
    );
    let (register, fetch) = logged_in().refresh_from_server(Some("fcm"), "desktop").unwrap();
    assert_eq!(register.url, "https://s/devices/register");
    assert!(register.body.unwrap().contains(r#""fcm_token":"fcm""#));
    assert_eq!(fetch.url, "https://s/devices?exclude=me");
}

#[test]
fn network_changes() {
    let mut e = engine();
    assert!(!e.network_changed(Some("10.1.1.1"), "10.2.2.2".to_string()));
    assert_eq!(e.identity().ip, "10.1.1.1");
    assert!(!e.network_changed(Some("junk"), "10.2.2.2".to_string()));
    assert_eq!(e.identity().ip, "10.2.2.2");
    assert!(logged_in().network_changed(None, "10.3.3.3".to_string()));
    network_tick(&mut e.net, "0.0.0.0".to_string());
    assert_eq!(e.identity().ip, "10.2.2.2");
    network_tick(&mut e.net, "10.4.4.4".to_string());
    assert_eq!(e.identity().ip, "10.4.4.4");
}

#[test]
fn scanning() {
    let (b, to) = engine().scan_lan(&IfaceMode::Single(Ipv4::new(192, 168, 1, 7)));
    assert_eq!((b.node_id.as_str(), b.reply), ("me", false));
    assert_eq!(to.len(), 256);
}

#[test]
fn dialing_a_websocket() {
    let mut e = engine();
    assert_eq!(e.connect_ws("p").unwrap_err(), "peer not found");
    e.add_manual_peer("p", "10.0.0.5", 1, 2, 0).unwrap();
    assert_eq!(e.connect_ws("manual:10.0.0.5").unwrap_err(), "peer has no WebSocket port");
    e.add_manual_peer("p", "10.0.0.5", 1, 2, 80).unwrap();
    assert_eq!(
        e.connect_ws("manual:10.0.0.5").unwrap(),
        Some((Endpoint::new(Ipv4::new(10, 0, 0, 5), 80), "ws://10.0.0.5:80/".to_string()))
    );
    e.net.ws_conns.insert("manual:10.0.0.5".to_string(), 1);
    assert_eq!(e.connect_ws("manual:10.0.0.5").unwrap(), None);
    assert_eq!(e.connect("p"), Err("peer not found".to_string()));
    assert_eq!(e.connect("manual:10.0.0.5"), Ok(()));
}

#[test]
fn chat_is_from_the_user() {
    let mut e = engine();
    assert_eq!(e.send("p", "hi").from, "laptop");
    e.dev_login("ann", "secret").unwrap();
    let o = e.send("p", "hi");
    assert_eq!((o.from.as_str(), o.protocol.as_str(), o.text.as_str()), ("ann", "UDP", "hi"));
    e.set_directed_transport(" tcp");
    assert_eq!(e.directed_transport(), "TCP");
    assert_eq!(e.send("p", "hi").protocol, "TCP");
    e.set_directed_transport("anything");
    assert_eq!(e.directed_transport(), "UDP");
}

#[test]
fn clipboard_pulls() {
    let mut e = engine();
    assert_eq!(
        e.get_clipboard(BARE, "p", 1).map(|_| ()),
        Err("clipboard not supported on this device".to_string())
    );
    let o = e.get_clipboard(ALL, "p", 1).unwrap();
    assert_eq!(o.text, bare_message("clipboard_request", "me"));
    assert_eq!(e.net.clip_pending.get("p"), Some(&1));
    assert_eq!(
        e.finish_pull("p", None),
        Err("no clipboard response from peer (is it reachable and using the same key?)".to_string())
    );
    assert!(!e.net.clip_pending.contains_key("p"));
    e.get_clipboard(ALL, "p", 2).unwrap();
    assert_eq!(e.finish_pull("p", Some("theirs".to_string())), Ok("theirs".to_string()));
    assert_eq!(e.net.clip_last, "theirs");
    e.get_clipboard(ALL, "p", 3).unwrap();
    e.cancel_pull("p");
    assert_eq!(e.net.clip_pending.len(), 0);
}

#[test]
fn clipboard_watching() {
    let mut e = engine();
    e.add_manual_peer("p", "10.0.0.5", 1, 2, 3).unwrap();
    assert!(clipboard_tick(&mut e.net, Some("a".to_string())).is_empty());
    e.enable_clipboard_sync(Some("a".to_string()));
    assert!(e.clipboard_sync_enabled());
    assert!(clipboard_tick(&mut e.net, Some("a".to_string())).is_empty());
    assert!(clipboard_tick(&mut e.net, Some("".to_string())).is_empty());
    assert!(clipboard_tick(&mut e.net, None).is_empty());
    let out = clipboard_tick(&mut e.net, Some("b".to_string()));
    assert_eq!(out.len(), 1);
    assert_eq!(out[0].text, clipboard_message("clipboard", "me", "b"));
    // Sent once, and not again.
    assert!(clipboard_tick(&mut e.net, Some("b".to_string())).is_empty());
    e.disable_clipboard_sync();
    assert!(clipboard_tick(&mut e.net, Some("c".to_string())).is_empty());
    e.enable_clipboard_sync(None);
    assert_eq!(e.net.clip_last, "b");
}

#[test]
fn sharing() {
    let mut e = engine();
    e.add_manual_peer("p", "10.0.0.5", 1, 2, 3).unwrap();
    e.add_manual_peer("q", "10.0.0.6", 1, 2, 3).unwrap();
    let out = e.share_notification("t", "b", Some("mail"));
    assert_eq!(out.len(), 2);
    assert_eq!(out[1].node_id, "manual:10.0.0.6");
    assert_eq!(out[1].text, notification_message("me", "t", "b", Some("mail")));
    assert_eq!(e.share_call_notification("Bob", None, "ended").len(), 2);
    assert_eq!(
        e.share_call_history("[1]")[0].text,
        r#"{"entries":[1],"from":"me","type":"call_history"}"#
    );
    assert_eq!(e.request_apps("p").text, bare_message("apps_request", "me"));
    assert_eq!(
        e.subscribe_apps("p", "[\"x\"]").text,
        r#"{"apps":["x"],"from":"me","type":"subscribe_apps"}"#
    );
    e.set_installed_apps("[5]");
    assert_eq!(e.net.installed_apps, "[5]");
}

#[test]
fn app_notifications_go_to_subscribers() {
    let mut e = engine();
    let apps = |list: &[&str]| Apps { packages: list.iter().map(|s| s.to_string()).collect() };
    e.net.subs.insert("p".to_string(), apps(&["mail", "chat"]));
    e.net.subs.insert("q".to_string(), apps(&["news"]));
    e.net.subs.insert("r".to_string(), apps(&["mail"]));
    let out = e.share_app_notification("mail", "Mail", "t", "b");
    let to: Vec<&str> = out.iter().map(|o| o.node_id.as_str()).collect();
    assert_eq!(to, vec!["p", "r"]);
    assert_eq!(out[0].text, notification_message("me", "t", "b", Some("Mail")));
    assert!(e.share_app_notification("nobody", "x", "t", "b").is_empty());
}

#[test]
fn heartbeat() {
    let mut e = engine();
    mark_live(&mut e.net, "ws", TransportKind::Ws, None, 0);
    mark_live(&mut e.net, "old", TransportKind::Udp, None, 84);
    mark_live(&mut e.net, "edge", TransportKind::Punch, None, 85);
    mark_live(&mut e.net, "late", TransportKind::WebRtc, None, 200);
    let out = heartbeat_tick(&mut e.net, 100);
    assert_eq!(e.connected_peers(), vec!["ws".to_string(), "edge".to_string(), "late".to_string()]);
    assert_eq!(out.len(), 3);
    assert!(matches!(&out[0], Effect::Emit(CoreEvent::PeerDisconnected { node_id }) if node_id == "old"));
    assert!(matches!(
        &out[1],
        Effect::Send(o) if o.node_id == "edge" && o.text == bare_message("p2p_ping", "me")
    ));
    assert!(matches!(&out[2], Effect::Send(o) if o.node_id == "late"));
}

#[test]
fn firewall() {
    assert_eq!(engine().firewall_check().map(|_| ()), Err("not logged in".to_string()));
    assert!(engine().report_firewall().is_none());
    let e = logged_in();
    let (url, health) = e.firewall_check().unwrap();
    assert_eq!((url.as_str(), health.url.as_str()), ("https://s", "https://s/health"));
    assert!(matches!(
        e.firewall_probe(&url, false),
        Ok(FirewallStep::Done(FirewallStatus { outbound_ok: false, inbound_blocked: true }))
    ));
    match e.firewall_probe(&url, true) {
        Ok(FirewallStep::Probe { token, request }) => {
            assert_eq!(token, "tok");
            assert_eq!(request.body.unwrap(), r#"{"check":["tcp","ws"],"node_id":"me"}"#);
        }
        _ => panic!("expected a probe"),
    }
    assert_eq!(engine().firewall_probe(&url, true).map(|_| ()), Err("not logged in".to_string()));
    let probe = |tcp, ws, udp| ProbeResult { tcp_reachable: tcp, ws_reachable: ws, udp_reachable: udp };
    let (open, update) = firewall_verdict("https://s", "tok", "me", probe(false, true, false));
    assert_eq!(open, FirewallStatus { outbound_ok: true, inbound_blocked: false });
    assert!(update.body.unwrap().contains(r#""inbound_blocked":false"#));
    let (shut, _) = firewall_verdict("https://s", "tok", "me", probe(false, false, true));
    assert!(shut.inbound_blocked);
    let report = e.report_firewall().unwrap();
    assert_eq!(report.probe.url, "https://s/devices/probe");
}

#[test]
fn server_calls_need_a_session() {
    let e = engine();
    assert_eq!(e.update_ws_open(true).map(|_| ()), Err("not logged in".to_string()));
    assert_eq!(e.send_signal("p", "{}").map(|_| ()), Err("not logged in".to_string()));
    assert_eq!(e.fcm_selftest().map(|_| ()), Err("not logged in".to_string()));
    let e = logged_in();
    assert!(e.update_ws_open(true).unwrap().body.unwrap().contains(r#""ws_open":true"#));
    assert_eq!(
        e.send_signal("p", r#"{"a":1}"#).unwrap().body.unwrap(),
        r#"{"data":{"a":1},"from":"me","to":"p","type":"signal"}"#
    );
    assert_eq!(e.send_signal("p", "nope").map(|_| ()), Err("malformed signal".to_string()));
    let (sid, q) = e.fcm_selftest().unwrap();
    assert_eq!(sid.len(), 36);
    assert!(q.body.unwrap().contains(&sid));
    assert!(e.fcm_selftest_with("x").unwrap().body.unwrap().contains(r#""sid":"x""#));
}

#[test]
fn inbound_signals() {
    let mut e = engine();
    match on_signal(&mut e.net, "p", Signal::StartWs { sid: "1".to_string() }) {
        SignalAction::OpenWs { reply: Signal::WsReady { sid, ip, ws_port } } => {
            assert_eq!((sid.as_str(), ip.as_str(), ws_port), ("1", "192.168.1.7", 3));
        }
        _ => panic!("expected a reply"),
    }
    let ready = Signal::WsReady { sid: "1".to_string(), ip: "10.0.0.9".to_string(), ws_port: 80 };
    assert!(matches!(
        on_signal(&mut e.net, "p", ready),
        SignalAction::DialWs { ip, ws_port: 80 } if ip == "10.0.0.9"
    ));
    let offer = Signal::PunchOffer { sid: "2".to_string(), candidates: vec![], start_in_ms: 0 };
    assert!(matches!(on_signal(&mut e.net, "p", offer), SignalAction::Punch { sid, .. } if sid == "2"));
    assert!(matches!(
        punch_answer("2".to_string(), vec![]),
        Signal::PunchAnswer { sid, start_in_ms: 0, .. } if sid == "2"
    ));
    let answer = || Signal::PunchAnswer { sid: "3".to_string(), candidates: vec![], start_in_ms: 0 };
    assert!(matches!(on_signal(&mut e.net, "p", answer()), SignalAction::Nothing));
    e.net.punch_waiters.insert("3".to_string(), 7);
    assert!(matches!(
        on_signal(&mut e.net, "p", answer()),
        SignalAction::DeliverCandidates { ticket: 7, .. }
    ));
    assert!(matches!(on_signal(&mut e.net, "p", answer()), SignalAction::Nothing));
    let sdp = Signal::SdpOffer { sid: "4".to_string(), sdp: "o".to_string() };
    assert!(matches!(on_signal(&mut e.net, "p", sdp), SignalAction::AcceptSdp { sdp, .. } if sdp == "o"));
    assert!(matches!(
        sdp_answer("4".to_string(), "a".to_string()),
        Signal::SdpAnswer { sdp, .. } if sdp == "a"
    ));
    e.net.rtc_waiters.insert("5".to_string(), 8);
    let sdp = Signal::SdpAnswer { sid: "5".to_string(), sdp: "a".to_string() };
    assert!(matches!(on_signal(&mut e.net, "p", sdp), SignalAction::DeliverSdp { ticket: 8, .. }));
    mark_live(&mut e.net, "p", TransportKind::Udp, None, 1);
    match on_signal(&mut e.net, "p", Signal::Bye { sid: "6".to_string() }) {
        SignalAction::Perform(out) => assert_eq!(out.len(), 1),
        _ => panic!("expected effects"),
    }
    assert!(matches!(
        on_signal(&mut e.net, "p", Signal::PunchReady { sid: "7".to_string() }),
        SignalAction::Nothing
    ));
}

fn told(out: &[Effect]) -> Vec<(String, Option<String>)> {
    out.iter()
        .map(|e| match e {
            Effect::Emit(CoreEvent::ConnectProgress { stage, detail, .. }) => (stage.clone(), detail.clone()),
            _ => panic!("expected progress"),
        })
        .collect()
}

fn stage(s: &str) -> Vec<(String, Option<String>)> {
    vec![(s.to_string(), None)]
}

#[test]
fn ladder_needs_a_known_peer() {
    let mut e = engine();
    let (l, out, action) = Ladder::start(&e.net, "p", 1);
    assert!(l.is_none() && matches!(action, Action::Stop));
    assert_eq!(told(&out), vec![("failed".to_string(), Some("peer not found".to_string()))]);
    mark_live(&mut e.net, "p", TransportKind::Ws, None, 1);
    let (l, out, _) = Ladder::start(&e.net, "p", 1);
    assert!(l.is_none());
    assert_eq!(told(&out), stage("connected"));
}

#[test]
fn ladder_on_the_lan() {
    let mut e = engine();
    e.add_manual_peer("p", "192.168.1.9", 1, 2, 3).unwrap();
    let id = "manual:192.168.1.9";
    let (l, out, action) = Ladder::start(&e.net, id, 1);
    let mut l = l.unwrap();
    assert_eq!(told(&out), stage("udp_ping"));
    assert!(matches!(
        action,
        Action::Send(o) if o.protocol == "UDP" && o.node_id == id && o.text == bare_message("p2p_ping", "me")
    ));
    let (out, action) = l.step(&mut e.net, Event::Done(true));
    assert!(out.is_empty() && matches!(action, Action::WaitLive { ms: 2000 }));
    let (out, action) = l.step(&mut e.net, Event::Live(true));
    assert_eq!(told(&out), vec![("connected".to_string(), Some("udp".to_string()))]);
    assert!(matches!(action, Action::Stop) && matches!(l.at, Stage::Finished));
}

#[test]
fn ladder_all_the_way_down() {
    let mut e = engine();
    e.apply_registry_peers(vec![listed("p", "10.0.0.2")]);
    assert!(!same_lan(&e.net, e.net.peers.get("p").unwrap()));
    let (l, out, action) = Ladder::start(&e.net, "p", 9);
    let mut l = l.unwrap();
    assert_eq!(told(&out), stage("direct_ws"));
    assert!(matches!(action, Action::DialWs { ip, ws_port: 13 } if ip == "10.0.0.2"));
    let (_, action) = l.step(&mut e.net, Event::Done(true));
    assert!(matches!(action, Action::WaitLive { ms: 3000 }));
    let (out, action) = l.step_with(&mut e.net, Event::Live(false), "s1".to_string());
    assert_eq!(told(&out), stage("via_signal"));
    assert!(matches!(action, Action::Signal(Signal::StartWs { sid }) if sid == "s1"));
    let (_, action) = l.step(&mut e.net, Event::Done(true));
    assert!(matches!(action, Action::WaitLive { ms: 8000 }));
    let (out, action) = l.step(&mut e.net, Event::Live(false));
    assert_eq!(told(&out), stage("punching"));
    assert!(matches!(action, Action::Gather));
    let mine = vec![Candidate { ip: "1.2.3.4".to_string(), port: 5, kind: "host".to_string() }];
    let (_, action) = l.step_with(&mut e.net, Event::Candidates(Some(mine)), "s2".to_string());
    assert!(matches!(
        action,
        Action::Signal(Signal::PunchOffer { sid, candidates, start_in_ms: 0 }) if sid == "s2" && candidates.len() == 1
    ));
    assert_eq!(e.net.punch_waiters.get("s2"), Some(&9));
    let (_, action) = l.step(&mut e.net, Event::Done(true));
    assert!(matches!(action, Action::AwaitCandidates { secs: 8 }));
    let (_, action) = l.step(&mut e.net, Event::Candidates(Some(vec![])));
    assert!(matches!(action, Action::Punch { ms: 9000, .. }));
    assert_eq!(e.net.punch_waiters.len(), 0);
    let (out, action) = l.step(&mut e.net, Event::Live(false));
    assert_eq!(told(&out), stage("webrtc"));
    assert!(matches!(action, Action::CreateOffer));
    let (_, action) = l.step_with(&mut e.net, Event::Sdp(Some("offer".to_string())), "s3".to_string());
    assert!(matches!(action, Action::Signal(Signal::SdpOffer { sid, sdp }) if sid == "s3" && sdp == "offer"));
    assert_eq!(e.net.rtc_waiters.get("s3"), Some(&9));
    let (_, action) = l.step(&mut e.net, Event::Done(true));
    assert!(matches!(action, Action::AwaitSdp { secs: 10 }));
    let (_, action) = l.step(&mut e.net, Event::Sdp(Some("answer".to_string())));
    assert!(matches!(action, Action::ApplyAnswer { sdp } if sdp == "answer"));
    assert_eq!(e.net.rtc_waiters.len(), 0);
    let (_, action) = l.step(&mut e.net, Event::Done(true));
    assert!(matches!(action, Action::WaitLive { ms: 12000 }));
    let (out, action) = l.step(&mut e.net, Event::Live(false));
    assert_eq!(told(&out), vec![("failed".to_string(), Some("no reachable path".to_string()))]);
    assert!(matches!(action, Action::Stop));
    let (out, action) = l.step(&mut e.net, Event::Live(true));
    assert!(out.is_empty() && matches!(action, Action::Stop));
}

#[test]
fn ladder_leaves_no_waiter() {
    let mut e = engine();
    let mut shut = listed("p", "10.0.0.2");
    shut.inbound_blocked = true;
    e.apply_registry_peers(vec![shut]);
    let (l, out, _) = Ladder::start(&e.net, "p", 9);
    let mut l = l.unwrap();
    assert_eq!(told(&out), stage("via_signal"));
    l.step(&mut e.net, Event::Done(false));
    l.step(&mut e.net, Event::Candidates(Some(vec![])));
    assert_eq!(e.net.punch_waiters.len(), 1);
    let (out, _) = l.step(&mut e.net, Event::Done(false));
    assert_eq!(told(&out), stage("webrtc"));
    assert_eq!(e.net.punch_waiters.len(), 0);
    l.step(&mut e.net, Event::Sdp(Some("offer".to_string())));
    l.step(&mut e.net, Event::Done(true));
    assert_eq!(e.net.rtc_waiters.len(), 1);
    let (_, action) = l.step(&mut e.net, Event::Sdp(None));
    assert!(matches!(action, Action::Stop));
    assert_eq!(e.net.rtc_waiters.len(), 0);
}
