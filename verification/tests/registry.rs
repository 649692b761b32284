use mdcore::model::Identity;
use mdcore::registry::{
    auth_call, base, health_ok, http_err, probe_inbound, registry_fetch, registry_register, send_selfping,
    send_signal, update_device_state, verify_password_call, verify_password_reply, HttpFailure, Method,
};

#[test]
fn base_of_urls() {
    assert_eq!(base("https://example.org"), "https://example.org");
    assert_eq!(base("  https://example.org/ "), "https://example.org");
    assert_eq!(base("https://example.org:8443/auth/login"), "https://example.org:8443");
    assert_eq!(base("https://example.org///"), "https://example.org");
    assert_eq!(base("example.org/path/"), "example.org/path");
    assert_eq!(base("http://h/p?q=1"), "http://h");
    assert_eq!(base("http://h:80?x=1"), "http://h:80");
    assert_eq!(base("http://h:80#top"), "http://h:80");
    assert_eq!(base("http://h?a=/b/"), "http://h");
    assert_eq!(base(" http://h?x "), "http://h");
    assert_eq!(base("example.org?x=1"), "example.org?x=1");
    for url in ["http://h:80?x=1", " https://example.org/a/b ", "example.org/path/"] {
        assert_eq!(base(&base(url)), base(url));
    }
    // Without a host, what is left is cleaned once more.
    assert_eq!(base("http://?x"), "http://");
    assert_eq!(base(&base("http://?x")), "http:");
    assert_eq!(base(""), "");
    assert_eq!(base(&base("https://example.org:8443/auth/login")), "https://example.org:8443");
}

#[test]
fn auth_request() {
    let q = auth_call("https://s/x", "/auth/login", "ann", "p\"w");
    assert_eq!(q.method, Method::Post);
    assert_eq!(q.url, "https://s/auth/login");
    assert_eq!(q.authorization, None);
    assert_eq!(q.body.unwrap(), r#"{"password":"p\"w","username":"ann"}"#);
    assert_eq!(q.timeout_secs, 10);
    let v = verify_password_call("https://s", "ann", "pw");
    assert_eq!(v.url, "https://s/auth/verify");
}

#[test]
fn register_request() {
    let id = Identity {
        node_id: "n".to_string(),
        name: "laptop".to_string(),
        ip: "10.0.0.1".to_string(),
        tcp_port: 1,
        udp_port: 2,
        ws_port: 65535,
    };
    let q = registry_register("https://s", "tok", &id, None, "desktop", false);
    assert_eq!(q.url, "https://s/devices/register");
    assert_eq!(q.authorization.unwrap(), "Bearer tok");
    assert_eq!(
        q.body.unwrap(),
        r#"{"fcm_token":null,"ip":"10.0.0.1","name":"laptop","node_id":"n","platform":"desktop","supports_ipv6":false,"tcp_port":1,"udp_port":2,"ws_port":65535}"#
    );
}

#[test]
fn other_requests() {
    let q = send_selfping("https://s", "tok", "n", "sid");
    assert_eq!(q.url, "https://s/signal/selfping");
    assert_eq!(q.body.unwrap(), r#"{"node_id":"n","sid":"sid"}"#);
    let q = update_device_state("https://s", "tok", "n", Some(true), None, Some("1.2.3.4"), Some(7));
    assert_eq!(q.url, "https://s/devices/state");
    assert_eq!(
        q.body.unwrap(),
        r#"{"inbound_blocked":null,"node_id":"n","reflexive_ip":"1.2.3.4","reflexive_udp_port":7,"ws_open":true}"#
    );
    let q = probe_inbound("https://s", "tok", "n", vec!["tcp".to_string(), "ws".to_string()]);
    assert_eq!(q.url, "https://s/devices/probe");
    assert_eq!(q.body.unwrap(), r#"{"check":["tcp","ws"],"node_id":"n"}"#);
    let q = health_ok("https://s/");
    assert_eq!((q.method, q.url.as_str(), q.timeout_secs), (Method::Get, "https://s/health", 5));
    assert!(q.body.is_none() && q.authorization.is_none());
    let q = registry_fetch("https://s", "tok", "me");
    assert_eq!(q.url, "https://s/devices?exclude=me");
    assert_eq!(q.authorization.unwrap(), "Bearer tok");
}

#[test]
fn signal_request() {
    let q = send_signal("https://s", "tok", "a", "b", "signal", r#"{"type": "bye", "sid": "1"}"#).unwrap();
    assert_eq!(q.url, "https://s/signal");
    assert_eq!(
        q.body.unwrap(),
        r#"{"data":{"sid":"1","type":"bye"},"from":"a","to":"b","type":"signal"}"#
    );
    assert!(send_signal("https://s", "tok", "a", "b", "signal", "{no json").is_none());
}

#[test]
fn failures_in_words() {
    let said = HttpFailure::Status { code: 409, body: Some(r#"{"error":"name taken"}"#.to_string()) };
    assert_eq!(http_err(&said), "name taken");
    for body in [None, Some("oops"), Some(r#"{"error":5}"#), Some("[]"), Some("{}")] {
        let e = HttpFailure::Status { code: 502, body: body.map(String::from) };
        assert_eq!(http_err(&e), "server returned HTTP 502");
    }
    assert_eq!(http_err(&HttpFailure::Transport("no route".to_string())), "no route");
}

#[test]
fn password_verdicts() {
    assert_eq!(verify_password_reply(&None), Ok(true));
    let wrong = HttpFailure::Status { code: 401, body: None };
    assert_eq!(verify_password_reply(&Some(wrong)), Ok(false));
    let broken = HttpFailure::Status { code: 500, body: None };
    assert_eq!(verify_password_reply(&Some(broken)), Err("server returned HTTP 500".to_string()));
}
