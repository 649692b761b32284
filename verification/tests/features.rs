use mdcore::capabilities::Capabilities;
use mdcore::engine::NetCtx;
use mdcore::events::{CoreEvent, Effect};
use mdcore::features::clipboard::clipboard_reply;
use mdcore::features::{ControlHandler, ControlMsg, ControlRegistry, Feature};
use mdcore::messages::{
    apps_list_message, bare_message, call_message, clipboard_message, history_message, notification_message,
    subscribe_message,
};
use mdcore::model::{Identity, Plaintext};
use mdcore::transport::incoming::{classify, handle_incoming, Opened};
use mdcore::transport::TransportKind;

const ALL: Capabilities = Capabilities { clipboard: true, notifier: true };
const BARE: Capabilities = Capabilities { clipboard: false, notifier: false };

fn device(node_id: &str) -> NetCtx {
    NetCtx::new(Identity {
        node_id: node_id.to_string(),
        name: format!("{node_id}'s name"),
        ip: "10.0.0.1".to_string(),
        tcp_port: 1,
        udp_port: 2,
        ws_port: 3,
    })
}

fn dispatch(ctx: &mut NetCtx, caps: Capabilities, text: &str) -> Option<Vec<Effect>> {
    ControlRegistry::with_defaults().dispatch(ctx, caps, 100, "Ann", "10.0.0.9", "UDP", text)
}

#[test]
fn message_texts_are_exact() {
    assert_eq!(bare_message("p2p_ping", "n"), r#"{"from":"n","type":"p2p_ping"}"#);
    assert_eq!(
        clipboard_message("clipboard", "n", "a\nb"),
        r#"{"content":"a\nb","from":"n","type":"clipboard"}"#
    );
    assert_eq!(
        notification_message("n", "t", "b", None),
        r#"{"app":null,"body":"b","from":"n","title":"t","type":"notification"}"#
    );
    assert_eq!(
        call_message("n", "c", Some("5"), "missed"),
        r#"{"caller":"c","from":"n","number":"5","state":"missed","type":"call_notification"}"#
    );
    assert_eq!(
        history_message("n", "[1, {\"a\": 2}]"),
        r#"{"entries":[1,{"a":2}],"from":"n","type":"call_history"}"#
    );
    assert_eq!(history_message("n", "[1,"), r#"{"entries":null,"from":"n","type":"call_history"}"#);
    assert_eq!(subscribe_message("n", "x"), r#"{"apps":[],"from":"n","type":"subscribe_apps"}"#);
    assert_eq!(
        subscribe_message("n", r#"["p"]"#),
        r#"{"apps":["p"],"from":"n","type":"subscribe_apps"}"#
    );
    assert_eq!(
        apps_list_message("n", "[{\"pkg\":\"p\"}]", &vec!["p".to_string()]),
        r#"{"apps":[{"pkg":"p"}],"from":"n","subscribed":["p"],"type":"apps_list"}"#
    );
    assert_eq!(
        apps_list_message("n", "", &vec![]),
        r#"{"apps":[],"from":"n","subscribed":[],"type":"apps_list"}"#
    );
}

#[test]
fn message_fields() {
    let text = r#"{"type":"x","s":"v","n":5,"list":["a",1,"b",null],"s":"w"}"#;
    let m = ControlMsg::parse("f", "i", "p", text).unwrap();
    assert_eq!(m.kind(), "x");
    assert_eq!(m.str("s"), "w");
    assert_eq!(m.str("n"), "");
    assert_eq!(m.str("absent"), "");
    assert_eq!(m.opt("s"), Some("w".to_string()));
    assert_eq!(m.opt("n"), None);
    assert_eq!(m.json("n"), "5");
    assert_eq!(m.json("absent"), "null");
    assert_eq!(m.strings("list"), vec!["a".to_string(), "b".to_string()]);
    assert!(m.strings("s").is_empty());
    assert!(ControlMsg::parse("f", "i", "p", "{").is_none());
    assert_eq!(ControlMsg::parse("f", "i", "p", "[1]").unwrap().kind(), "");
}

#[test]
fn chat_is_no_control_message() {
    let mut ctx = device("me");
    for text in ["hello", "{}", "[]", r#"{"type":5}"#, r#"{"type":"unheard_of"}"#, ""] {
        assert!(dispatch(&mut ctx, ALL, text).is_none(), "{text}");
    }
}

#[test]
fn every_kind_is_claimed() {
    let mut kinds = vec![];
    for f in [
        Feature::Clipboard,
        Feature::Notification,
        Feature::CallNotification,
        Feature::CallHistory,
        Feature::NotifApps,
        Feature::P2pPing,
    ] {
        kinds.extend(f.kinds());
    }
    assert_eq!(kinds.len(), 11);
    for (i, kind) in kinds.iter().enumerate() {
        assert!(!kinds[..i].contains(kind));
        let mut ctx = device("me");
        ctx.clip_active = true;
        let out = dispatch(&mut ctx, ALL, &bare_message(kind, "peer")).unwrap();
        // Handled in-band, never shown as chat.
        assert!(!out.iter().any(|e| matches!(e, Effect::Emit(CoreEvent::MessageReceived(_)))));
    }
}

#[test]
fn registering_later_takes_over_a_kind() {
    let mut r: ControlRegistry<Feature> = ControlRegistry::new();
    let mut ctx = device("me");
    assert!(r.dispatch(&mut ctx, ALL, 1, "", "", "", &bare_message("p2p_pong", "x")).is_none());
    r.register(Feature::P2pPing);
    assert!(r.dispatch(&mut ctx, ALL, 1, "", "", "", &bare_message("p2p_pong", "x")).is_some());
    assert!(r.dispatch(&mut ctx, ALL, 1, "", "", "", &bare_message("notification", "x")).is_none());
}

#[test]
fn ping_is_answered() {
    let mut ctx = device("me");
    let out = dispatch(&mut ctx, ALL, &bare_message("p2p_ping", "peer")).unwrap();
    assert_eq!(out.len(), 2);
    assert!(matches!(
        &out[0],
        Effect::Emit(CoreEvent::PeerConnected { node_id, transport: TransportKind::Udp }) if node_id == "peer"
    ));
    match &out[1] {
        Effect::Send(o) => {
            assert_eq!(o.node_id, "peer");
            assert_eq!(o.protocol, "UDP");
            assert_eq!(o.from, "me's name");
            assert_eq!(o.text, bare_message("p2p_pong", "me"));
        }
        _ => panic!("expected a pong"),
    }
    assert_eq!(ctx.p2p_conns.get("peer").unwrap().last_seen, 100);
    // A pong refreshes, and is not answered.
    let out = dispatch(&mut ctx, ALL, &bare_message("p2p_pong", "peer")).unwrap();
    assert!(out.is_empty());
    // Nobody is marked live without a name.
    assert!(dispatch(&mut ctx, ALL, r#"{"type":"p2p_ping"}"#).unwrap().is_empty());
    assert_eq!(ctx.p2p_conns.len(), 1);
}

#[test]
fn notification_arrives() {
    let text = notification_message("peer", "title", "body", Some("mail"));
    let out = dispatch(&mut device("me"), ALL, &text).unwrap();
    assert_eq!(out.len(), 2);
    assert!(matches!(&out[0], Effect::Notify { title, body } if title == "title" && body == "body"));
    assert!(matches!(
        &out[1],
        Effect::Emit(CoreEvent::Notification { from, title, body, app: Some(a) })
            if from == "peer" && title == "title" && body == "body" && a == "mail"
    ));
    let out = dispatch(&mut device("me"), BARE, &text).unwrap();
    assert_eq!(out.len(), 1);
}

#[test]
fn calls_arrive() {
    let out = dispatch(&mut device("me"), ALL, &call_message("peer", "Bob", None, "ringing")).unwrap();
    assert!(matches!(
        &out[0],
        Effect::Emit(CoreEvent::CallNotification { from, caller, number: None, state })
            if from == "peer" && caller == "Bob" && state == "ringing"
    ));
    let out = dispatch(&mut device("me"), ALL, &history_message("peer", "[1, 2]")).unwrap();
    assert!(matches!(
        &out[0],
        Effect::Emit(CoreEvent::CallHistory { from, entries }) if from == "peer" && entries == "[1,2]"
    ));
    let out = dispatch(&mut device("me"), ALL, &history_message("peer", "[1, 2")).unwrap();
    assert!(matches!(&out[0], Effect::Emit(CoreEvent::CallHistory { entries, .. }) if entries == "null"));
    // A message nests its entries one level deeper than they are.
    let nested = |n: usize| format!("{}{}", "[".repeat(n), "]".repeat(n));
    assert!(dispatch(&mut device("me"), ALL, &history_message("peer", &nested(126))).is_some());
    assert!(dispatch(&mut device("me"), ALL, &history_message("peer", &nested(127))).is_none());
}

#[test]
fn clipboard_push() {
    let text = clipboard_message("clipboard", "peer", "copied");
    let mut ctx = device("me");
    assert!(dispatch(&mut ctx, ALL, &text).unwrap().is_empty());
    assert_eq!(ctx.clip_last, "");
    ctx.clip_active = true;
    assert!(dispatch(&mut ctx, BARE, &text).unwrap().is_empty());
    let out = dispatch(&mut ctx, ALL, &text).unwrap();
    assert!(matches!(&out[0], Effect::SetClipboard(s) if s == "copied"));
    assert!(matches!(
        &out[1],
        Effect::Emit(CoreEvent::Clipboard { from, ip, protocol, action })
            if from == "Ann" && ip == "10.0.0.9" && protocol == "UDP" && action == "synced"
    ));
    assert_eq!(ctx.clip_last, "copied");
}

#[test]
fn clipboard_pull() {
    let mut ctx = device("me");
    let out = dispatch(&mut ctx, ALL, &bare_message("clipboard_request", "peer")).unwrap();
    assert!(matches!(&out[0], Effect::ReadClipboard { requester } if requester == "peer"));
    assert!(dispatch(&mut ctx, ALL, &bare_message("clipboard_request", "")).unwrap().is_empty());

    let o = clipboard_reply(&ctx, "peer", Some("mine".to_string()));
    assert_eq!(o.text, clipboard_message("clipboard_response", "me", "mine"));
    assert_eq!(clipboard_reply(&ctx, "peer", None).text, clipboard_message("clipboard_response", "me", ""));

    ctx.clip_pending.insert("peer".to_string(), 7);
    let answer = clipboard_message("clipboard_response", "peer", "theirs");
    let out = dispatch(&mut ctx, ALL, &answer).unwrap();
    assert!(matches!(&out[0], Effect::AnswerPull { ticket: 7, content } if content == "theirs"));
    assert!(dispatch(&mut ctx, ALL, &answer).unwrap().is_empty());
}

#[test]
fn app_subscriptions() {
    let mut ctx = device("me");
    ctx.installed_apps = r#"[{"pkg":"mail"}]"#.to_string();
    let out = dispatch(&mut ctx, ALL, &subscribe_message("peer", r#"["mail",3,"chat"]"#)).unwrap();
    assert!(out.is_empty());
    assert_eq!(ctx.subs.get("peer").unwrap().packages, vec!["mail".to_string(), "chat".to_string()]);
    let out = dispatch(&mut ctx, ALL, &bare_message("apps_request", "peer")).unwrap();
    match &out[0] {
        Effect::Send(o) => assert_eq!(
            o.text,
            r#"{"apps":[{"pkg":"mail"}],"from":"me","subscribed":["mail","chat"],"type":"apps_list"}"#
        ),
        _ => panic!("expected an answer"),
    }
    assert!(dispatch(&mut ctx, ALL, &subscribe_message("", r#"["mail"]"#)).unwrap().is_empty());
    assert_eq!(ctx.subs.len(), 1);

    let text = apps_list_message("peer", "[]", &vec!["mail".to_string()]);
    let out = dispatch(&mut ctx, ALL, &text).unwrap();
    assert!(matches!(
        &out[0],
        Effect::Emit(CoreEvent::AppsList { from, apps, subscribed })
            if from == "peer" && apps == "[]" && subscribed == r#"["mail"]"#
    ));
}

#[test]
fn what_was_found_in_an_envelope() {
    let hi = || Plaintext { from: "Ann".to_string(), text: "hi".to_string() };
    assert!(matches!(classify(&None, None), Opened::Locked));
    assert!(matches!(classify(&None, Some(hi())), Opened::Locked));
    assert!(matches!(classify(&Some(b"{".to_vec()), None), Opened::Garbled));
    match classify(&Some(b"{}".to_vec()), Some(hi())) {
        Opened::Message(m) => assert_eq!((m.from.as_str(), m.text.as_str()), ("Ann", "hi")),
        _ => panic!("expected a message"),
    }
}

#[test]
fn events_can_be_copied() {
    let out = dispatch(&mut device("me"), ALL, &call_message("peer", "Bob", Some("5"), "missed")).unwrap();
    match &out[0] {
        Effect::Emit(ev) => assert!(matches!(
            ev.clone(),
            CoreEvent::CallNotification { from, caller, number: Some(n), state }
                if from == "peer" && caller == "Bob" && n == "5" && state == "missed"
        )),
        _ => panic!("expected an event"),
    }
}

#[test]
fn incoming_messages() {
    let control = ControlRegistry::with_defaults();
    let mut ctx = device("me");
    let out = handle_incoming(&mut ctx, &control, ALL, 42, Opened::Locked, "1.2.3.4".to_string(), "TCP");
    match &out[0] {
        Effect::Emit(CoreEvent::MessageReceived(m)) => {
            assert_eq!(m.from, "(unknown)");
            assert_eq!(m.text, "🔒 message could not be decrypted (wrong encryption key)");
            assert_eq!((m.ip.as_str(), m.protocol.as_str(), m.ts, m.ok), ("1.2.3.4", "TCP", 42, false));
        }
        _ => panic!("expected a message"),
    }
    let out = handle_incoming(&mut ctx, &control, ALL, 42, Opened::Garbled, "1.2.3.4".to_string(), "TCP");
    assert!(out.is_empty());
    let chat = Plaintext { from: "Ann".to_string(), text: "hi".to_string() };
    let out = handle_incoming(&mut ctx, &control, ALL, 42, Opened::Message(chat), "".to_string(), "WS");
    match &out[0] {
        Effect::Emit(CoreEvent::MessageReceived(m)) => {
            assert_eq!((m.from.as_str(), m.text.as_str(), m.protocol.as_str(), m.ok), ("Ann", "hi", "WS", true));
        }
        _ => panic!("expected a message"),
    }
    let ping = Plaintext { from: "Ann".to_string(), text: bare_message("p2p_pong", "peer") };
    let out = handle_incoming(&mut ctx, &control, ALL, 42, Opened::Message(ping), "".to_string(), "UDP");
    assert!(matches!(&out[0], Effect::Emit(CoreEvent::PeerConnected { .. })));
}
