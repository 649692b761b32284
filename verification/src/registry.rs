//! Registry (HTTP) client. The registry is a directory only: it maps a user's
//! devices to their endpoints. Each call is a request that the host sends and a
//! function that says what its reply means; errors are texts, so that hosts can
//! surface them verbatim.

use vstd::prelude::*;

use crate::json::{
    add_field, find_field, json_fields, json_text, object_text, opt_item, opt_text_item, out_view,
    parse_fields, raws_are_json, text_field, Item, ItemView,
};
use crate::model::{Identity, IdentityView};
use crate::text::{
    chars_of, decimal, decimal_text, find_from, find_from_spec, is_white_space_spec, join,
    lemma_first_is_found, lemma_found, lemma_trimmed, lemma_without_trailing, opt_str, opt_text, stands_at, texts, trim, trim_end_char, trimmed, without_trailing,
};

verus! {

pub struct TokenResp {
    pub token: String,
    pub username: String,
}

/// A device as the registry lists it, with what it reported of its reachability.
pub struct RegistryDevice {
    pub node_id: String,
    pub name: String,
    pub ip: String,
    pub tcp_port: u16,
    pub udp_port: u16,
    pub ws_port: u16,
    pub ws_open: bool,
    pub inbound_blocked: bool,
    pub reflexive_ip: Option<String>,
    pub reflexive_udp_port: Option<u16>,
}

#[derive(Clone, Copy, Debug, PartialEq, Eq)]
pub struct ProbeResult {
    pub tcp_reachable: bool,
    pub ws_reachable: bool,
    pub udp_reachable: bool,
}

/// A server URL as entered, without surrounding white space and trailing slashes.
pub open spec fn cleaned(url: Seq<char>) -> Seq<char> {
    without_trailing(trimmed(url), '/')
}

/// Whether a character ends the host of a URL: a path, a query or a fragment begins.
pub open spec fn ends_host(c: char) -> bool {
    c == '/' || c == '?' || c == '#'
}

/// The first position at or after `k` where the host of a URL ends.
pub open spec fn host_end(u: Seq<char>, k: int) -> int
    decreases u.len() - k,
{
    if k >= u.len() {
        u.len() as int
    } else if ends_host(u[k]) {
        k
    } else {
        host_end(u, k + 1)
    }
}

/// A URL without surrounding white space and trailing slashes, cut where the host behind
/// `://` ends.
pub open spec fn base_spec(url: Seq<char>) -> Seq<char> {
    let u = cleaned(url);
    match find_from_spec(u, "://"@, 0) {
        Some(i) => u.take(host_end(u, i + 3)),
        None => u,
    }
}

/// Normalize a user-entered server URL to just `scheme://host[:port]`, dropping any
/// path/query so that pasting a full endpoint (e.g. `.../auth/login`) doesn't get the
/// path appended twice.
pub fn base(url: &str) -> (r: String)
    ensures
        r@ == base_spec(url@),
{
    let u = trim_end_char(trim(url), '/');
    proof {
        reveal_strlit("://");
    }
    match find_from(u, "://", 0) {
        Some(i) => {
            let cs = chars_of(u);
            assert(i + 3 <= cs.len());
            let mut k: usize = i + 3;
            while k < cs.len() && cs[k] != '/' && cs[k] != '?' && cs[k] != '#'
                invariant
                    k <= cs.len(),
                    cs@ == u@,
                    host_end(u@, i + 3) == host_end(u@, k as int),
                decreases cs.len() - k,
            {
                k = k + 1;
            }
            assert(u@.subrange(0, k as int) =~= u@.take(k as int));
            u.substring_char(0, k).to_owned()
        },
        None => u.to_owned(),
    }
}

/// Whether a text is `scheme://host[:port]` and nothing more.
pub open spec fn is_base(b: Seq<char>) -> bool {
    &&& cleaned(b) == b
    &&& find_from_spec(b, "://"@, 0) matches Some(i) && host_end(b, i + 3) == b.len()
}

/// The host ends at the first character that ends it.
pub proof fn lemma_host_end(u: Seq<char>, k: int, j: int)
    requires
        0 <= k <= j <= u.len(),
        forall|m: int| k <= m < j ==> !ends_host(#[trigger] u[m]),
        j == u.len() || ends_host(u[j]),
    ensures
        host_end(u, k) == j,
    decreases j - k,
{
    if k < j {
        assert(!ends_host(u[k]));
        lemma_host_end(u, k + 1, j);
    }
}

/// Nothing before the end of the host ends it.
proof fn lemma_before_host_end(u: Seq<char>, k: int)
    requires
        0 <= k <= u.len(),
    ensures
        k <= host_end(u, k) <= u.len(),
        forall|m: int| k <= m < host_end(u, k) ==> !ends_host(#[trigger] u[m]),
    decreases u.len() - k,
{
    if k < u.len() && !ends_host(u[k]) {
        lemma_before_host_end(u, k + 1);
    }
}

/// Whatever path, query or fragment follows a base URL, normalizing drops it; and a base
/// URL stays as it is.
pub proof fn law_base_drops_path(url: Seq<char>, b: Seq<char>, rest: Seq<char>)
    requires
        is_base(b),
        cleaned(url) == b + rest,
        rest.len() == 0 || ends_host(rest[0]),
    ensures
        base_spec(url) == b,
        base_spec(b) == b,
{
    reveal_strlit("://");
    let u = b + rest;
    let i = find_from_spec(b, "://"@, 0)->0;
    let j = b.len() as int;
    lemma_found(b, "://"@, 0);
    assert("://"@[1] == '/' && "://"@[2] == '/' && "://"@[0] == ':');
    assert(u.subrange(i, i + 3) =~= b.subrange(i, i + 3));
    assert forall|m: int| 0 <= m < i implies !#[trigger] stands_at(u, "://"@, m) by {
        if stands_at(u, "://"@, m) {
            assert(u.subrange(m, m + 3) =~= b.subrange(m, m + 3));
            assert(stands_at(b, "://"@, m));
        }
    }
    lemma_first_is_found(u, "://"@, 0, i);
    lemma_before_host_end(b, i + 3);
    assert forall|m: int| i + 3 <= m < j implies !ends_host(#[trigger] u[m]) by {
        assert(u[m] == b[m]);
    }
    lemma_host_end(u, i + 3, j);
    assert(u.take(j) =~= b);
    assert(b.take(j) =~= b);
}

/// A cleaned URL does not begin with white space and does not end with a slash. Cleaning
/// leaves a URL alone that ends with neither and does not begin with white space, and
/// shortens one that ends with either.
proof fn lemma_cleaned(s: Seq<char>)
    ensures
        cleaned(s).len() <= s.len(),
        cleaned(s).len() > 0 ==> !is_white_space_spec(cleaned(s)[0]) && cleaned(s).last() != '/',
        s.len() > 0 && !is_white_space_spec(s[0]) && !is_white_space_spec(s.last()) && s.last()
            != '/' ==> cleaned(s) == s,
        s.len() > 0 && !is_white_space_spec(s[0]) && (is_white_space_spec(s.last()) || s.last()
            == '/') ==> cleaned(s).len() < s.len(),
{
    lemma_trimmed(s);
    lemma_without_trailing(trimmed(s), '/');
}

/// Whether a URL that has a scheme has a host too, and nothing ends in white space once
/// the rest is dropped.
pub open spec fn has_clean_base(url: Seq<char>) -> bool {
    let u = cleaned(url);
    let b = base_spec(url);
    &&& find_from_spec(u, "://"@, 0) matches Some(i) ==> host_end(u, i + 3) > i + 3
    &&& b.len() > 0 ==> !is_white_space_spec(b.last())
}

/// What a URL with a scheme and a host is normalized to is `scheme://host[:port]` and
/// nothing more.
pub proof fn law_base_is_base(url: Seq<char>)
    requires
        find_from_spec(cleaned(url), "://"@, 0) is Some,
        has_clean_base(url),
    ensures
        is_base(base_spec(url)),
{
    reveal_strlit("://");
    let u = cleaned(url);
    let b = base_spec(url);
    let i = find_from_spec(u, "://"@, 0)->0;
    let j = host_end(u, i + 3);
    lemma_cleaned(url);
    lemma_found(u, "://"@, 0);
    lemma_before_host_end(u, i + 3);
    assert(!ends_host(u[j - 1]));
    assert(b.last() == u[j - 1] && b[0] == u[0]);
    lemma_cleaned(b);
    assert(b.subrange(i, i + 3) =~= u.subrange(i, i + 3));
    assert forall|m: int| 0 <= m < i implies !#[trigger] stands_at(b, "://"@, m) by {
        if stands_at(b, "://"@, m) {
            assert(u.subrange(m, m + 3) =~= b.subrange(m, m + 3));
            assert(stands_at(u, "://"@, m));
        }
    }
    lemma_first_is_found(b, "://"@, 0, i);
    assert forall|m: int| i + 3 <= m < j implies !ends_host(#[trigger] b[m]) by {
        assert(b[m] == u[m]);
    }
    lemma_host_end(b, i + 3, j);
}

/// Normalizing twice is normalizing once, for every URL but those with a scheme and no
/// host, such as `http://?x`, and those that end in white space once the rest is dropped.
pub proof fn law_base_twice(url: Seq<char>)
    ensures
        base_spec(base_spec(url)) == base_spec(url) <==> has_clean_base(url),
{
    reveal_strlit("://");
    let u = cleaned(url);
    let b = base_spec(url);
    lemma_cleaned(url);
    lemma_cleaned(b);
    lemma_found(u, "://"@, 0);
    match find_from_spec(u, "://"@, 0) {
        Some(i) => {
            let j = host_end(u, i + 3);
            lemma_before_host_end(u, i + 3);
            assert(b[0] == u[0]);
            if has_clean_base(url) {
                law_base_is_base(url);
                assert(b.take(b.len() as int) =~= b);
            } else {
                if j == i + 3 {
                    assert("://"@[2] == '/');
                    assert(u.subrange(i, i + 3)[2] == u[i + 2]);
                    assert(b.last() == '/');
                }
                lemma_base_is_short(b);
            }
        },
        None => {
            if !has_clean_base(url) {
                lemma_base_is_short(b);
            } else if b.len() == 0 {
                assert(cleaned(b) =~= b);
            }
        },
    }
}

/// Normalizing does not go beyond what cleaning leaves.
proof fn lemma_base_is_short(url: Seq<char>)
    ensures
        base_spec(url).len() <= cleaned(url).len(),
{
    reveal_strlit("://");
    let u = cleaned(url);
    lemma_found(u, "://"@, 0);
    if let Some(i) = find_from_spec(u, "://"@, 0) {
        lemma_before_host_end(u, i + 3);
    }
}

/// The first position at or after `k` where a slash stands, or the end.
pub open spec fn first_slash(u: Seq<char>, k: int) -> int {
    match find_from_spec(u, "/"@, k) {
        Some(j) => j,
        None => u.len() as int,
    }
}

/// The base ends at the first slash behind `://`, where no query and no fragment begins
/// before it; and a URL without a scheme is only cleaned.
pub proof fn law_base_ends_at_first_slash(url: Seq<char>)
    requires
        find_from_spec(cleaned(url), "://"@, 0) matches Some(i) ==> forall|m: int|
            i + 3 <= m < first_slash(cleaned(url), i + 3) ==> (#[trigger] cleaned(url)[m]) != '?'
                && cleaned(url)[m] != '#',
    ensures
        base_spec(url) == match find_from_spec(cleaned(url), "://"@, 0) {
            Some(i) => cleaned(url).take(first_slash(cleaned(url), i + 3)),
            None => cleaned(url),
        },
{
    reveal_strlit("://");
    reveal_strlit("/");
    let u = cleaned(url);
    lemma_found(u, "://"@, 0);
    if let Some(i) = find_from_spec(u, "://"@, 0) {
        let j = first_slash(u, i + 3);
        lemma_found(u, "/"@, i + 3);
        assert forall|m: int| i + 3 <= m < j implies !ends_host(#[trigger] u[m]) by {
            if u[m] == '/' {
                assert(u.subrange(m, m + 1) =~= "/"@);
                assert(stands_at(u, "/"@, m));
            }
        }
        if j < u.len() {
            assert(u.subrange(j, j + 1)[0] == u[j]);
        }
        lemma_host_end(u, i + 3, j);
    }
}

/// A failed request: the server answered with an error status and a body (where it
/// could be read), or there was no answer at all.
pub enum HttpFailure {
    Status { code: u16, body: Option<String> },
    Transport(String),
}

/// The error text in the body of an error reply, where there is one.
pub open spec fn body_error(body: Option<Seq<char>>) -> Option<Seq<char>> {
    match body {
        Some(text) => match json_fields(text) {
            Some(fields) => text_field(fields, "error"@),
            None => None,
        },
        None => None,
    }
}

/// What a failed request is reported as.
pub open spec fn failure_text(e: HttpFailure) -> Seq<char> {
    match e {
        HttpFailure::Status { code, body } => match body_error(opt_text(body)) {
            Some(text) => text,
            None => "server returned HTTP "@ + decimal(code as nat),
        },
        HttpFailure::Transport(text) => text@,
    }
}

/// What a failed request is reported as: the server's own words where it gave some.
pub fn http_err(e: &HttpFailure) -> (r: String)
    ensures
        r@ == failure_text(*e),
{
    match e {
        HttpFailure::Status { code, body } => {
            if let Some(text) = body {
                if let Some(fields) = parse_fields(text.as_str()) {
                    if let Some(f) = find_field(&fields, "error") {
                        if let Some(error) = &f.value.text {
                            return error.clone();
                        }
                    }
                }
            }
            let number = decimal_text(*code as u64);
            join("server returned HTTP ", number.as_str())
        },
        HttpFailure::Transport(text) => text.clone(),
    }
}

#[derive(Clone, Copy, Debug, PartialEq, Eq, Structural)]
pub enum Method {
    Get,
    Post,
}

/// A request to the server: what to send where, the `Authorization` header and the
/// JSON body if there are any, and how long the answer may take.
pub struct HttpRequest {
    pub method: Method,
    pub url: String,
    pub authorization: Option<String>,
    pub body: Option<String>,
    pub timeout_secs: u64,
}

#[verifier::ext_equal]
pub struct RequestView {
    pub method: Method,
    pub url: Seq<char>,
    pub authorization: Option<Seq<char>>,
    pub body: Option<Seq<char>>,
    pub timeout_secs: u64,
}

impl View for HttpRequest {
    type V = RequestView;

    open spec fn view(&self) -> RequestView {
        RequestView {
            method: self.method,
            url: self.url@,
            authorization: opt_text(self.authorization),
            body: opt_text(self.body),
            timeout_secs: self.timeout_secs,
        }
    }
}

/// A request that posts a JSON object.
pub open spec fn post_spec(
    url: Seq<char>,
    path: Seq<char>,
    token: Option<Seq<char>>,
    fields: Seq<(Seq<char>, ItemView)>,
) -> RequestView {
    RequestView {
        method: Method::Post,
        url: base_spec(url) + path,
        authorization: match token {
            Some(t) => Some("Bearer "@ + t),
            None => None,
        },
        body: Some(json_text(fields)),
        timeout_secs: 10,
    }
}

/// Whether no value is given as JSON text.
pub open spec fn no_raw(fields: Seq<(Seq<char>, ItemView)>) -> bool {
    forall|i: int| 0 <= i < fields.len() ==> !((#[trigger] fields[i]).1 is Raw)
}

fn bearer(token: Option<&str>) -> (r: Option<String>)
    ensures
        opt_text(r) == (match opt_str(token) {
            Some(t) => Some("Bearer "@ + t),
            None => None,
        }),
{
    match token {
        Some(t) => Some(join("Bearer ", t)),
        None => None,
    }
}

fn post(url: &str, path: &str, token: Option<&str>, fields: &Vec<(String, Item)>) -> (r:
    HttpRequest)
    requires
        no_raw(out_view(fields@)),
    ensures
        r@ == post_spec(url@, path@, opt_str(token), out_view(fields@)),
{
    let server = base(url);
    HttpRequest {
        method: Method::Post,
        url: join(server.as_str(), path),
        authorization: bearer(token),
        body: object_text(fields),
        timeout_secs: 10,
    }
}

fn start() -> (r: Vec<(String, Item)>)
    ensures
        out_view(r@) == Seq::<(Seq<char>, ItemView)>::empty(),
{
    let r: Vec<(String, Item)> = Vec::new();
    assert(out_view(r@) =~= Seq::<(Seq<char>, ItemView)>::empty());
    r
}

fn text_item(s: &str) -> (r: Item)
    ensures
        r@ == ItemView::Text(s@),
{
    Item::Text(s.to_owned())
}

/// A yes or no, or nothing, as a value to write.
pub open spec fn flag_item(b: Option<bool>) -> ItemView {
    match b {
        Some(x) => ItemView::Flag(x),
        None => ItemView::Null,
    }
}

fn opt_flag_item(b: Option<bool>) -> (r: Item)
    ensures
        r@ == flag_item(b),
{
    match b {
        Some(x) => Item::Flag(x),
        None => Item::Null,
    }
}

/// A port, or nothing, as a value to write.
pub open spec fn port_item(p: Option<u16>) -> ItemView {
    match p {
        Some(x) => ItemView::Number(x as u64),
        None => ItemView::Null,
    }
}

fn opt_port_item(p: Option<u16>) -> (r: Item)
    ensures
        r@ == port_item(p),
{
    match p {
        Some(x) => Item::Number(x as u64),
        None => Item::Null,
    }
}

pub open spec fn credentials(username: Seq<char>, password: Seq<char>) -> Seq<
    (Seq<char>, ItemView),
> {
    seq![("username"@, ItemView::Text(username)), ("password"@, ItemView::Text(password))]
}

fn credential_fields(username: &str, password: &str) -> (r: Vec<(String, Item)>)
    ensures
        out_view(r@) == credentials(username@, password@),
{
    let mut fields = start();
    add_field(&mut fields, "username", text_item(username));
    add_field(&mut fields, "password", text_item(password));
    assert(out_view(fields@) =~= credentials(username@, password@));
    fields
}

/// Log in or register, by the path given. The reply is a `TokenResp`.
pub fn auth_call(url: &str, path: &str, username: &str, password: &str) -> (r: HttpRequest)
    ensures
        r@ == post_spec(url@, path@, None, credentials(username@, password@)),
{
    let fields = credential_fields(username, password);
    post(url, path, None, &fields)
}

/// Ask whether a password is right. The reply is for `verify_password_reply`.
pub fn verify_password_call(url: &str, username: &str, password: &str) -> (r: HttpRequest)
    ensures
        r@ == post_spec(url@, "/auth/verify"@, None, credentials(username@, password@)),
{
    let fields = credential_fields(username, password);
    post(url, "/auth/verify", None, &fields)
}

/// A password is right if the server accepts it and wrong if it answers 401; any
/// other failure is an error.
pub open spec fn password_verdict(failure: Option<HttpFailure>) -> Result<bool, Seq<char>> {
    match failure {
        None => Ok(true),
        Some(e) => if e matches HttpFailure::Status { code, .. } && code == 401 {
            Ok(false)
        } else {
            Err(failure_text(e))
        },
    }
}

/// A yes, a no or an error, by its view.
pub open spec fn verdict_view(r: Result<bool, String>) -> Result<bool, Seq<char>> {
    match r {
        Ok(b) => Ok(b),
        Err(e) => Err(e@),
    }
}

/// What the reply to `verify_password_call` says; `failure` is `None` where the
/// request succeeded.
pub fn verify_password_reply(failure: &Option<HttpFailure>) -> (r: Result<bool, String>)
    ensures
        verdict_view(r) == password_verdict(*failure),
{
    match failure {
        None => Ok(true),
        Some(e) => {
            if let HttpFailure::Status { code, .. } = e {
                if *code == 401 {
                    return Ok(false);
                }
            }
            Err(http_err(e))
        },
    }
}

pub open spec fn registration(
    id: IdentityView,
    fcm_token: Option<Seq<char>>,
    platform: Seq<char>,
    supports_ipv6: bool,
) -> Seq<(Seq<char>, ItemView)> {
    seq![
        ("node_id"@, ItemView::Text(id.node_id)),
        ("name"@, ItemView::Text(id.name)),
        ("ip"@, ItemView::Text(id.ip)),
        ("tcp_port"@, ItemView::Number(id.tcp_port as u64)),
        ("udp_port"@, ItemView::Number(id.udp_port as u64)),
        ("ws_port"@, ItemView::Number(id.ws_port as u64)),
        ("fcm_token"@, opt_item(fcm_token)),
        ("platform"@, ItemView::Text(platform)),
        ("supports_ipv6"@, ItemView::Flag(supports_ipv6)),
    ]
}

/// Tell the registry of this device.
pub fn registry_register(
    url: &str,
    token: &str,
    id: &Identity,
    fcm_token: Option<&str>,
    platform: &str,
    supports_ipv6: bool,
) -> (r: HttpRequest)
    ensures
        r@ == post_spec(
            url@,
            "/devices/register"@,
            Some(token@),
            registration(id@, opt_str(fcm_token), platform@, supports_ipv6),
        ),
{
    let mut fields = start();
    add_field(&mut fields, "node_id", text_item(id.node_id.as_str()));
    add_field(&mut fields, "name", text_item(id.name.as_str()));
    add_field(&mut fields, "ip", text_item(id.ip.as_str()));
    add_field(&mut fields, "tcp_port", Item::Number(id.tcp_port as u64));
    add_field(&mut fields, "udp_port", Item::Number(id.udp_port as u64));
    add_field(&mut fields, "ws_port", Item::Number(id.ws_port as u64));
    add_field(&mut fields, "fcm_token", opt_text_item(fcm_token));
    add_field(&mut fields, "platform", text_item(platform));
    add_field(&mut fields, "supports_ipv6", Item::Flag(supports_ipv6));
    assert(out_view(fields@) =~= registration(
        id@,
        opt_str(fcm_token),
        platform@,
        supports_ipv6,
    ));
    post(url, "/devices/register", Some(token), &fields)
}

pub open spec fn signal_fields(
    from: Seq<char>,
    to: Seq<char>,
    kind: Seq<char>,
    data: Seq<char>,
) -> Seq<(Seq<char>, ItemView)> {
    seq![
        ("from"@, ItemView::Text(from)),
        ("to"@, ItemView::Text(to)),
        ("type"@, ItemView::Text(kind)),
        ("data"@, ItemView::Raw(data)),
    ]
}

/// Relay a typed signal to one of the user's other devices (the server pushes it).
/// `data` is the typed payload as JSON text; `None` where it is no JSON.
pub fn send_signal(url: &str, token: &str, from: &str, to: &str, kind: &str, data: &str) -> (r:
    Option<HttpRequest>)
    ensures
        r is Some <==> json_fields(data@) is Some,
        r matches Some(req) ==> req@ == post_spec(
            url@,
            "/signal"@,
            Some(token@),
            signal_fields(from@, to@, kind@, data@),
        ),
{
    let mut fields = start();
    add_field(&mut fields, "from", text_item(from));
    add_field(&mut fields, "to", text_item(to));
    add_field(&mut fields, "type", text_item(kind));
    add_field(&mut fields, "data", Item::Raw(data.to_owned()));
    let ghost all = signal_fields(from@, to@, kind@, data@);
    assert(out_view(fields@) =~= all);
    proof {
        if raws_are_json(all) {
            assert(all[3].1 matches ItemView::Raw(t) ==> json_fields(t) is Some);
        }
    }
    let server = base(url);
    match object_text(&fields) {
        Some(body) => Some(
            HttpRequest {
                method: Method::Post,
                url: join(server.as_str(), "/signal"),
                authorization: bearer(Some(token)),
                body: Some(body),
                timeout_secs: 10,
            },
        ),
        None => None,
    }
}

pub open spec fn selfping_fields(node_id: Seq<char>, sid: Seq<char>) -> Seq<
    (Seq<char>, ItemView),
> {
    seq![("node_id"@, ItemView::Text(node_id)), ("sid"@, ItemView::Text(sid))]
}

/// Round-trip push self-test: ask the server to push a `ping` to our OWN device
/// token. `sid` correlates the request with the received pong.
pub fn send_selfping(url: &str, token: &str, node_id: &str, sid: &str) -> (r: HttpRequest)
    ensures
        r@ == post_spec(
            url@,
            "/signal/selfping"@,
            Some(token@),
            selfping_fields(node_id@, sid@),
        ),
{
    let mut fields = start();
    add_field(&mut fields, "node_id", text_item(node_id));
    add_field(&mut fields, "sid", text_item(sid));
    assert(out_view(fields@) =~= selfping_fields(node_id@, sid@));
    post(url, "/signal/selfping", Some(token), &fields)
}

pub open spec fn state_fields(
    node_id: Seq<char>,
    ws_open: Option<bool>,
    inbound_blocked: Option<bool>,
    reflexive_ip: Option<Seq<char>>,
    reflexive_udp_port: Option<u16>,
) -> Seq<(Seq<char>, ItemView)> {
    seq![
        ("node_id"@, ItemView::Text(node_id)),
        ("ws_open"@, flag_item(ws_open)),
        ("inbound_blocked"@, flag_item(inbound_blocked)),
        ("reflexive_ip"@, opt_item(reflexive_ip)),
        ("reflexive_udp_port"@, port_item(reflexive_udp_port)),
    ]
}

/// Partial live-state update (e.g. flip `ws_open`, record a STUN mapping).
pub fn update_device_state(
    url: &str,
    token: &str,
    node_id: &str,
    ws_open: Option<bool>,
    inbound_blocked: Option<bool>,
    reflexive_ip: Option<&str>,
    reflexive_udp_port: Option<u16>,
) -> (r: HttpRequest)
    ensures
        r@ == post_spec(
            url@,
            "/devices/state"@,
            Some(token@),
            state_fields(
                node_id@,
                ws_open,
                inbound_blocked,
                opt_str(reflexive_ip),
                reflexive_udp_port,
            ),
        ),
{
    let mut fields = start();
    add_field(&mut fields, "node_id", text_item(node_id));
    add_field(&mut fields, "ws_open", opt_flag_item(ws_open));
    add_field(&mut fields, "inbound_blocked", opt_flag_item(inbound_blocked));
    add_field(&mut fields, "reflexive_ip", opt_text_item(reflexive_ip));
    add_field(&mut fields, "reflexive_udp_port", opt_port_item(reflexive_udp_port));
    assert(out_view(fields@) =~= state_fields(
        node_id@,
        ws_open,
        inbound_blocked,
        opt_str(reflexive_ip),
        reflexive_udp_port,
    ));
    post(url, "/devices/state", Some(token), &fields)
}

pub open spec fn probe_fields(node_id: Seq<char>, checks: Seq<Seq<char>>) -> Seq<
    (Seq<char>, ItemView),
> {
    seq![("node_id"@, ItemView::Text(node_id)), ("check"@, ItemView::Texts(checks))]
}

/// Ask the server to dial back to our advertised ports (inbound firewall check). The
/// reply is a `ProbeResult`.
pub fn probe_inbound(url: &str, token: &str, node_id: &str, checks: Vec<String>) -> (r:
    HttpRequest)
    ensures
        r@ == post_spec(
            url@,
            "/devices/probe"@,
            Some(token@),
            probe_fields(node_id@, texts(checks@)),
        ),
{
    let mut fields = start();
    add_field(&mut fields, "node_id", text_item(node_id));
    add_field(&mut fields, "check", Item::Texts(checks));
    assert(out_view(fields@) =~= probe_fields(node_id@, texts(checks@)));
    post(url, "/devices/probe", Some(token), &fields)
}

/// Outbound reachability: the server is reachable if this request succeeds.
pub fn health_ok(url: &str) -> (r: HttpRequest)
    ensures
        r@ == (RequestView {
            method: Method::Get,
            url: base_spec(url@) + "/health"@,
            authorization: None,
            body: None,
            timeout_secs: 5,
        }),
{
    let server = base(url);
    HttpRequest {
        method: Method::Get,
        url: join(server.as_str(), "/health"),
        authorization: None,
        body: None,
        timeout_secs: 5,
    }
}

/// Ask for the user's other devices. The reply is a list of `RegistryDevice`.
pub fn registry_fetch(url: &str, token: &str, exclude: &str) -> (r: HttpRequest)
    ensures
        r@ == (RequestView {
            method: Method::Get,
            url: base_spec(url@) + "/devices?exclude="@ + exclude@,
            authorization: Some("Bearer "@ + token@),
            body: None,
            timeout_secs: 10,
        }),
{
    let server = base(url);
    let path = join(server.as_str(), "/devices?exclude=");
    HttpRequest {
        method: Method::Get,
        url: join(path.as_str(), exclude),
        authorization: bearer(Some(token)),
        body: None,
        timeout_secs: 10,
    }
}

} // verus!
