//! What is asked of the server, and what its replies mean.

use vstd::prelude::*;

use crate::json::{json_fields, json_text, text_field, ItemView};
use crate::laws::messages::text_or_null;
use crate::laws::signals::posts;
use crate::laws::values::{all_white, law_trimmed_core};
use crate::model::Identity;
use crate::registry::{
    auth_call, base, base_spec, cleaned, ends_host, health_ok, http_err, is_base,
    law_base_drops_path, probe_inbound, registry_fetch, registry_register, send_selfping,
    send_signal, update_device_state, verify_password_call, verify_password_reply, HttpFailure,
    HttpRequest, Method,
};
use crate::text::{
    decimal, is_white_space_spec, lemma_first_is_found, opt_str, stands_at, texts, without_trailing,
};

verus! {

/// Whatever stands around it and behind it, a URL is brought to its scheme and its host: no
/// white space, no path, no query, no fragment is left.
pub proof fn law_base_is_scheme_and_host(
    url: &str,
    scheme: Seq<char>,
    host: Seq<char>,
    rest: Seq<char>,
    lead: Seq<char>,
    trail: Seq<char>,
    r: String,
)
    requires
        call_ensures(base, (url,), r),
        url@ == lead + (scheme + "://"@ + host + rest) + trail,
        all_white(lead),
        all_white(trail),
        scheme.len() > 0,
        !is_white_space_spec(scheme[0]),
        forall|i: int| 0 <= i < scheme.len() ==> #[trigger] scheme[i] != ':',
        host.len() > 0,
        !is_white_space_spec(host.last()),
        forall|i: int|
            0 <= i < host.len() ==> #[trigger] host[i] != '/' && host[i] != '?' && host[i] != '#',
        rest.len() > 0 ==> (rest[0] == '/' || rest[0] == '?' || rest[0] == '#')
            && !is_white_space_spec(rest.last()),
    ensures
        r@ == scheme + "://"@ + host,
{
    reveal_strlit("://");
    let b = scheme + "://"@ + host;
    let core = scheme + "://"@ + host + rest;
    let i = scheme.len() as int;
    assert("://"@.len() == 3 && "://"@[0] == ':' && "://"@[1] == '/' && "://"@[2] == '/');
    assert(core =~= b + rest);
    assert(core[0] == scheme[0]);
    assert(core.last() == if rest.len() > 0 { rest.last() } else { host.last() });
    law_trimmed_core(lead, core, trail);
    assert(b.last() == host.last());
    assert(host[host.len() - 1] == host.last());
    lemma_cut_slashes(b, rest);
    // b is a base.
    assert(b.subrange(i, i + 3) =~= "://"@);
    assert(stands_at(b, "://"@, i));
    assert forall|m: int| 0 <= m < i implies !#[trigger] stands_at(b, "://"@, m) by {
        if stands_at(b, "://"@, m) {
            assert(b.subrange(m, m + 3)[0] == ':');
            assert(b[m] == scheme[m]);
        }
    }
    lemma_first_is_found(b, "://"@, 0, i);
    assert forall|m: int| i + 3 <= m < b.len() implies !ends_host(#[trigger] b[m]) by {
        assert(b[m] == host[m - i - 3]);
    }
    crate::registry::lemma_host_end(b, i + 3, b.len() as int);
    assert(b[0] == scheme[0]);
    law_trimmed_core(Seq::empty(), b, Seq::empty());
    assert(Seq::<char>::empty() + b + Seq::<char>::empty() =~= b);
    assert(is_base(b));
    let left = without_trailing(core, '/').skip(b.len() as int);
    assert(cleaned(url@) =~= b + left);
    law_base_drops_path(url@, b, left);
}

/// Trailing slashes are cut from what follows the host and not from the host.
proof fn lemma_cut_slashes(b: Seq<char>, rest: Seq<char>)
    requires
        b.len() > 0,
        b.last() != '/',
    ensures
        ({
            let w = without_trailing(b + rest, '/');
            let left = w.skip(b.len() as int);
            &&& w == b + left
            &&& left.len() <= rest.len()
            &&& left.len() > 0 ==> left[0] == rest[0]
        }),
    decreases rest.len(),
{
    let u = b + rest;
    let w = without_trailing(u, '/');
    if rest.len() > 0 && rest.last() == '/' {
        assert(u.drop_last() =~= b + rest.drop_last());
        lemma_cut_slashes(b, rest.drop_last());
    } else {
        assert(u.last() == if rest.len() > 0 { rest.last() } else { b.last() });
        assert(w == u);
        assert(w.skip(b.len() as int) =~= rest);
    }
}

/// Credentials go to the server in a JSON object, to the endpoint they are for.
pub proof fn law_credentials_are_posted(
    url: &str,
    path: &str,
    username: &str,
    password: &str,
    auth: HttpRequest,
    verify: HttpRequest,
)
    requires
        call_ensures(auth_call, (url, path, username, password), auth),
        call_ensures(verify_password_call, (url, username, password), verify),
    ensures
        auth@.method == Method::Post && verify@.method == Method::Post,
        auth@.url == base_spec(url@) + path@,
        verify@.url == base_spec(url@) + "/auth/verify"@,
        auth@.authorization is None && verify@.authorization is None,
        auth@.timeout_secs == 10 && verify@.timeout_secs == 10,
        auth@.body == Some(
            json_text(
                seq![
                    ("username"@, ItemView::Text(username@)),
                    ("password"@, ItemView::Text(password@)),
                ],
            ),
        ),
        verify@.body == auth@.body,
{
}

/// A password is right where the server accepts it, wrong where it answers 401, and neither
/// is known after any other failure.
pub proof fn law_password_reply(failure: Option<HttpFailure>, r: Result<bool, String>, why: String)
    requires
        call_ensures(verify_password_reply, (&failure,), r),
        failure matches Some(e) ==> call_ensures(http_err, (&e,), why),
    ensures
        failure is None ==> r == Ok::<bool, String>(true),
        failure matches Some(HttpFailure::Status { code, body }) ==> {
            &&& code == 401 ==> r == Ok::<bool, String>(false)
            &&& code != 401 ==> (r matches Err(t) && t@ == why@)
        },
        failure matches Some(HttpFailure::Transport(text)) ==> (r matches Err(t) && t@ == text@),
{
}

/// A failure is told in the server's own words where its body has some, by its status where
/// it has none, and by what went wrong where there was no answer.
pub proof fn law_failure_is_told(e: HttpFailure, r: String)
    requires
        call_ensures(http_err, (&e,), r),
    ensures
        e matches HttpFailure::Transport(text) ==> r@ == text@,
        e matches HttpFailure::Status { code, body } ==> {
            let words = match body {
                Some(b) => match json_fields(b@) {
                    Some(fields) => text_field(fields, "error"@),
                    None => None,
                },
                None => None,
            };
            &&& words matches Some(w) ==> r@ == w
            &&& words is None ==> r@ == "server returned HTTP "@ + decimal(code as nat)
        },
{
}

/// The registry is told of a device: who it is, where it is, and how to push to it.
pub proof fn law_registration(
    url: &str,
    token: &str,
    id: Identity,
    fcm_token: Option<&str>,
    platform: &str,
    supports_ipv6: bool,
    r: HttpRequest,
)
    requires
        call_ensures(registry_register, (url, token, &id, fcm_token, platform, supports_ipv6), r),
    ensures
        posts(
            r,
            url@,
            "/devices/register"@,
            token@,
            seq![
                ("node_id"@, ItemView::Text(id@.node_id)),
                ("name"@, ItemView::Text(id@.name)),
                ("ip"@, ItemView::Text(id@.ip)),
                ("tcp_port"@, ItemView::Number(id@.tcp_port as u64)),
                ("udp_port"@, ItemView::Number(id@.udp_port as u64)),
                ("ws_port"@, ItemView::Number(id@.ws_port as u64)),
                ("fcm_token"@, text_or_null(fcm_token)),
                ("platform"@, ItemView::Text(platform@)),
                ("supports_ipv6"@, ItemView::Flag(supports_ipv6)),
            ],
        ),
{
    assert(crate::registry::registration(id@, opt_str(fcm_token), platform@, supports_ipv6)
        =~= seq![
        ("node_id"@, ItemView::Text(id@.node_id)),
        ("name"@, ItemView::Text(id@.name)),
        ("ip"@, ItemView::Text(id@.ip)),
        ("tcp_port"@, ItemView::Number(id@.tcp_port as u64)),
        ("udp_port"@, ItemView::Number(id@.udp_port as u64)),
        ("ws_port"@, ItemView::Number(id@.ws_port as u64)),
        ("fcm_token"@, text_or_null(fcm_token)),
        ("platform"@, ItemView::Text(platform@)),
        ("supports_ipv6"@, ItemView::Flag(supports_ipv6)),
    ]);
}

/// A signal is relayed from a device to another, with its payload as it is; what is no JSON
/// is not relayed.
pub proof fn law_signal_request(
    url: &str,
    token: &str,
    from: &str,
    to: &str,
    kind: &str,
    data: &str,
    r: Option<HttpRequest>,
)
    requires
        call_ensures(send_signal, (url, token, from, to, kind, data), r),
    ensures
        r is Some <==> json_fields(data@) is Some,
        r matches Some(q) ==> posts(
            q,
            url@,
            "/signal"@,
            token@,
            seq![
                ("from"@, ItemView::Text(from@)),
                ("to"@, ItemView::Text(to@)),
                ("type"@, ItemView::Text(kind@)),
                ("data"@, ItemView::Raw(data@)),
            ],
        ),
{
}

/// The push self-test names a device and an id.
pub proof fn law_selfping_request(
    url: &str,
    token: &str,
    node_id: &str,
    sid: &str,
    r: HttpRequest,
)
    requires
        call_ensures(send_selfping, (url, token, node_id, sid), r),
    ensures
        posts(
            r,
            url@,
            "/signal/selfping"@,
            token@,
            seq![("node_id"@, ItemView::Text(node_id@)), ("sid"@, ItemView::Text(sid@))],
        ),
{
}

/// A yes, a no or nothing, as JSON.
pub open spec fn flag_or_null(b: Option<bool>) -> ItemView {
    match b {
        Some(x) => ItemView::Flag(x),
        None => ItemView::Null,
    }
}

/// A change of state names what has changed, and is silent on the rest.
pub proof fn law_state_request(
    url: &str,
    token: &str,
    node_id: &str,
    ws_open: Option<bool>,
    inbound_blocked: Option<bool>,
    reflexive_ip: Option<&str>,
    reflexive_udp_port: Option<u16>,
    r: HttpRequest,
)
    requires
        call_ensures(
            update_device_state,
            (url, token, node_id, ws_open, inbound_blocked, reflexive_ip, reflexive_udp_port),
            r,
        ),
    ensures
        posts(
            r,
            url@,
            "/devices/state"@,
            token@,
            seq![
                ("node_id"@, ItemView::Text(node_id@)),
                ("ws_open"@, flag_or_null(ws_open)),
                ("inbound_blocked"@, flag_or_null(inbound_blocked)),
                ("reflexive_ip"@, text_or_null(reflexive_ip)),
                (
                    "reflexive_udp_port"@,
                    match reflexive_udp_port {
                        Some(p) => ItemView::Number(p as u64),
                        None => ItemView::Null,
                    },
                ),
            ],
        ),
{
    assert(crate::registry::state_fields(
        node_id@,
        ws_open,
        inbound_blocked,
        opt_str(reflexive_ip),
        reflexive_udp_port,
    ) =~= seq![
        ("node_id"@, ItemView::Text(node_id@)),
        ("ws_open"@, flag_or_null(ws_open)),
        ("inbound_blocked"@, flag_or_null(inbound_blocked)),
        ("reflexive_ip"@, text_or_null(reflexive_ip)),
        (
            "reflexive_udp_port"@,
            match reflexive_udp_port {
                Some(p) => ItemView::Number(p as u64),
                None => ItemView::Null,
            },
        ),
    ]);
}

/// A probe names a device and the listeners to dial.
pub proof fn law_probe_request(
    url: &str,
    token: &str,
    node_id: &str,
    checks: Vec<String>,
    r: HttpRequest,
)
    requires
        call_ensures(probe_inbound, (url, token, node_id, checks), r),
    ensures
        posts(
            r,
            url@,
            "/devices/probe"@,
            token@,
            seq![("node_id"@, ItemView::Text(node_id@)), ("check"@, ItemView::Texts(texts(checks@)))],
        ),
{
}

/// Whether the server answers, and which devices it lists but this one, is asked without a
/// body; only the latter takes a session.
pub proof fn law_get_requests(
    url: &str,
    token: &str,
    exclude: &str,
    health: HttpRequest,
    fetch: HttpRequest,
)
    requires
        call_ensures(health_ok, (url,), health),
        call_ensures(registry_fetch, (url, token, exclude), fetch),
    ensures
        health@.method == Method::Get && fetch@.method == Method::Get,
        health@.url == base_spec(url@) + "/health"@,
        fetch@.url == base_spec(url@) + "/devices?exclude="@ + exclude@,
        health@.authorization is None,
        fetch@.authorization == Some("Bearer "@ + token@),
        health@.body is None && fetch@.body is None,
        health@.timeout_secs == 5,
        fetch@.timeout_secs == 10,
{
}

} // verus!
