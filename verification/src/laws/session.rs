//! Logging in, and the key that a user's devices share.

use vstd::prelude::*;
use vstd::utf8::encode_utf8;

use crate::crypto::{argon2id, decrypt, derive_key, encrypt_with, MAX_PLAINTEXT};
use crate::engine::session::{SavedSession, SessionInfo};
use crate::engine::{Engine, EngineView, NetView};
use crate::json::{json_text, ItemView};
use crate::model::{Envelope, IdentityView};
use crate::registry::{base_spec, HttpRequest, Method, TokenResp};
use crate::text::trimmed;

verus! {

/// The key that a passphrase and a user have: Argon2id of the passphrase, salted with the
/// name of the user.
pub open spec fn shared_key(passphrase: Seq<char>, username: Seq<char>) -> Option<Seq<u8>> {
    argon2id(encode_utf8(passphrase), encode_utf8("my-domain-e2ee:"@ + username))
}

/// A derived key is that of the passphrase and of the user.
pub proof fn law_derived_key(passphrase: &str, username: &str, r: Option<[u8; 32]>)
    requires
        call_ensures(derive_key, (passphrase, username), r),
    ensures
        r is Some <==> encode_utf8(passphrase@).len() <= 0xFFFF_FFFF && encode_utf8(
            "my-domain-e2ee:"@ + username@,
        ).len() <= 0xFFFF_FFFF,
        r matches Some(k) ==> shared_key(passphrase@, username@) == Some(k@),
{
}

/// The key that is set is that of the passphrase typed and of the user who is logged in.
/// Without a user or a passphrase nothing changes.
pub proof fn law_set_key_is_that_of_the_passphrase(
    e: &mut Engine,
    passphrase: &str,
    r: Result<(), String>,
)
    requires
        call_ensures(Engine::set_encryption_key, (e, passphrase), r),
    ensures
        r is Ok ==> (old(e)@.username matches Some(u) && final(e)@ == (EngineView {
            net: NetView { key: shared_key(passphrase@, u), ..old(e)@.net },
            ..old(e)@
        })),
        r is Err ==> final(e)@ == old(e)@,
        old(e)@.username is None ==> (r matches Err(t) && t@ == "log in first"@),
        old(e)@.username is Some && trimmed(passphrase@).len() == 0 ==> (r matches Err(t) && t@
            == "encryption key is required"@),
        old(e)@.username is Some && trimmed(passphrase@).len() > 0 && encode_utf8(
            passphrase@,
        ).len() <= 0xFFFF_FFFF && encode_utf8("my-domain-e2ee:"@ + old(e)@.username->0).len()
            <= 0xFFFF_FFFF ==> r is Ok,
{
}

/// The key that is changed to is that of the new passphrase and of the user, and only where
/// the server found the password right.
pub proof fn law_changed_key_is_that_of_the_passphrase(
    e: &mut Engine,
    username: &str,
    passphrase: &str,
    verdict: Result<bool, String>,
    r: Result<(), String>,
)
    requires
        call_ensures(Engine::finish_update_key, (e, username, passphrase, verdict), r),
    ensures
        r is Ok ==> verdict == Ok::<bool, String>(true) && final(e)@ == (EngineView {
            net: NetView { key: shared_key(passphrase@, username@), ..old(e)@.net },
            ..old(e)@
        }),
        r is Err ==> final(e)@ == old(e)@,
        verdict matches Err(why) ==> (r matches Err(t) && t@ == why@),
        verdict == Ok::<bool, String>(false) ==> (r matches Err(t) && t@ == "incorrect password"@),
        verdict == Ok::<bool, String>(true) && trimmed(passphrase@).len() == 0 ==> (r matches Err(
            t,
        ) && t@ == "new encryption key is required"@),
        verdict == Ok::<bool, String>(true) && trimmed(passphrase@).len() > 0 && encode_utf8(
            passphrase@,
        ).len() <= 0xFFFF_FFFF && encode_utf8("my-domain-e2ee:"@ + username@).len() <= 0xFFFF_FFFF
            ==> r is Ok,
{
}

/// A login without a server sets the user, and the key of the passphrase typed and of that
/// user.
pub proof fn law_dev_login_sets_user_and_key(
    e: &mut Engine,
    username: &str,
    passphrase: &str,
    r: Result<(), String>,
)
    requires
        call_ensures(Engine::dev_login, (e, username, passphrase), r),
    ensures
        r is Ok ==> final(e)@ == (EngineView {
            username: Some(trimmed(username@)),
            net: NetView { key: shared_key(passphrase@, trimmed(username@)), ..old(e)@.net },
            ..old(e)@
        }),
        r is Err ==> final(e)@ == old(e)@,
        trimmed(username@).len() == 0 || trimmed(passphrase@).len() == 0 ==> (r matches Err(t) && t@
            == "username and encryption key required"@),
        trimmed(username@).len() > 0 && trimmed(passphrase@).len() > 0 && encode_utf8(
            passphrase@,
        ).len() <= 0xFFFF_FFFF && encode_utf8("my-domain-e2ee:"@ + trimmed(username@)).len()
            <= 0xFFFF_FFFF ==> r is Ok,
{
}

/// However the same passphrase is given for the same user, by a login without a server on
/// the one device, by setting the key on another, by changing it on a third, they come to
/// the same key; and what one of them encrypts every other opens.
pub proof fn law_devices_of_a_user_agree(
    a: &mut Engine,
    b: &mut Engine,
    c: &mut Engine,
    username: &str,
    passphrase: &str,
    verdict: Result<bool, String>,
    ra: Result<(), String>,
    rb: Result<(), String>,
    rc: Result<(), String>,
)
    requires
        trimmed(username@) == username@,
        old(b)@.username == Some(username@),
        call_ensures(Engine::dev_login, (a, username, passphrase), ra),
        call_ensures(Engine::set_encryption_key, (b, passphrase), rb),
        call_ensures(Engine::finish_update_key, (c, username, passphrase, verdict), rc),
    ensures
        ra is Ok && rb is Ok ==> final(a)@.net.key == final(b)@.net.key,
        ra is Ok && rc is Ok ==> final(a)@.net.key == final(c)@.net.key,
        rb is Ok && rc is Ok ==> final(b)@.net.key == final(c)@.net.key,
        ra is Ok ==> final(a)@.net.key is Some,
        rb is Ok ==> final(b)@.net.key is Some,
        rc is Ok ==> final(c)@.net.key is Some,
{
}

/// What is encrypted under a key opens again under that key, and gives the plaintext.
pub proof fn law_encrypted_opens(
    key: [u8; 32],
    nonce: [u8; 24],
    plaintext: &[u8],
    sent: Option<Envelope>,
    got: Option<Vec<u8>>,
)
    requires
        call_ensures(encrypt_with, (&key, &nonce, plaintext), sent),
        plaintext@.len() <= MAX_PLAINTEXT,
        sent matches Some(env) && call_ensures(decrypt, (&key, &env), got),
    ensures
        got matches Some(bytes) && bytes@ == plaintext@,
{
}

/// Logging in and registering send the trimmed name and the password as it was typed, each to
/// its own endpoint. A server has to be named.
pub proof fn law_auth_requests(
    server_url: &str,
    username: &str,
    password: &str,
    login: Result<HttpRequest, String>,
    register: Result<HttpRequest, String>,
)
    requires
        call_ensures(Engine::auth_login, (server_url, username, password), login),
        call_ensures(Engine::auth_register, (server_url, username, password), register),
    ensures
        trimmed(server_url@).len() == 0 ==> (login matches Err(t) && t@ == "server URL is required"@),
        trimmed(server_url@).len() == 0 ==> (register matches Err(t) && t@
            == "server URL is required"@),
        trimmed(server_url@).len() > 0 ==> {
            &&& login matches Ok(q)
            &&& q@.method == Method::Post
            &&& q@.url == base_spec(server_url@) + "/auth/login"@
            &&& q@.authorization is None
            &&& q@.timeout_secs == 10
            &&& q@.body == Some(
                json_text(
                    seq![
                        ("username"@, ItemView::Text(trimmed(username@))),
                        ("password"@, ItemView::Text(password@)),
                    ],
                ),
            )
            &&& register matches Ok(p)
            &&& p@.method == q@.method
            &&& p@.url == base_spec(server_url@) + "/auth/register"@
            &&& p@.authorization == q@.authorization
            &&& p@.timeout_secs == q@.timeout_secs
            &&& p@.body == q@.body
        },
{
}

/// A session begins with what the server gave: its token and the user's name; the host keeps
/// the normalized server and the name, and the key stays as it was.
pub proof fn law_session_begins(
    e: &mut Engine,
    server_url: &str,
    resp: TokenResp,
    r: SavedSession,
)
    requires
        call_ensures(Engine::finish_auth, (e, server_url, resp), r),
    ensures
        final(e)@.token == Some(resp.token@),
        final(e)@.username == Some(resp.username@),
        final(e)@.server_url == Some(base_spec(server_url@)),
        final(e)@.net == old(e)@.net,
        r.username@ == resp.username@,
        r.server_url@ == base_spec(server_url@),
{
}

/// Checking the password before a change of key asks for the user who is logged in.
pub proof fn law_password_is_checked(
    e: Engine,
    password: &str,
    r: Result<(String, HttpRequest), String>,
)
    requires
        call_ensures(Engine::update_encryption_key, (&e, password), r),
    ensures
        e@.username is None ==> (r matches Err(t) && t@ == "log in first"@),
        e@.username is Some && e@.server_url is None ==> (r matches Err(t) && t@ == "no server"@),
        e@.username matches Some(u) ==> e@.server_url matches Some(url) ==> {
            &&& r matches Ok(t)
            &&& t.0@ == u
            &&& t.1@.method == Method::Post
            &&& t.1@.url == base_spec(url) + "/auth/verify"@
            &&& t.1@.authorization is None
            &&& t.1@.timeout_secs == 10
            &&& t.1@.body == Some(
                json_text(
                    seq![
                        ("username"@, ItemView::Text(u)),
                        ("password"@, ItemView::Text(password@)),
                    ],
                ),
            )
        },
{
}

/// Logging out forgets the token and the key and nothing else, and then the device is not
/// ready; it is ready exactly where it has both.
pub proof fn law_logout(e: &mut Engine, before: bool, after: bool)
    requires
        call_ensures(Engine::is_ready, (&*old(e),), before),
        call_ensures(Engine::logout, (e,), ()),
        call_ensures(Engine::is_ready, (&*final(e),), after),
    ensures
        before <==> old(e)@.token is Some && old(e)@.net.key is Some,
        !after,
        final(e)@.token is None,
        final(e)@.net.key is None,
        final(e)@.username == old(e)@.username,
        final(e)@.server_url == old(e)@.server_url,
        final(e)@.net == (NetView { key: None, ..old(e)@.net }),
{
}

/// What is told of a session is the session's.
pub proof fn law_session_info(
    e: Engine,
    info: SessionInfo,
    url: Option<String>,
    name: Option<String>,
    saved: SavedSession,
)
    requires
        call_ensures(Engine::session_info, (&e,), info),
        call_ensures(Engine::saved_session, (url, name), saved),
    ensures
        info.username is Some <==> e@.username is Some,
        info.username matches Some(u) ==> Some(u@) == e@.username,
        info.server_url is Some <==> e@.server_url is Some,
        info.server_url matches Some(u) ==> Some(u@) == e@.server_url,
        info.has_key <==> e@.net.key is Some,
        url matches Some(u) ==> saved.server_url@ == u@,
        url is None ==> saved.server_url@.len() == 0,
        name matches Some(n) ==> saved.username@ == n@,
        name is None ==> saved.username@.len() == 0,
{
}

/// A device starts under its own id, with the name, address and ports it was given, and with
/// no key, no session, no peers and no links.
pub proof fn law_start(
    device_id: String,
    name: String,
    ip: String,
    tcp_port: u16,
    udp_port: u16,
    ws_port: u16,
    r: Engine,
)
    requires
        call_ensures(Engine::start, (device_id, name, ip, tcp_port, udp_port, ws_port), r),
    ensures
        trimmed(device_id@).len() > 0 ==> r@.net.identity.node_id == device_id@,
        trimmed(device_id@).len() == 0 ==> r@.net.identity.node_id.len() == 36,
        r@.net.identity.name == name@,
        r@.net.identity.ip == ip@,
        r@.net.identity.tcp_port == tcp_port,
        r@.net.identity.udp_port == udp_port,
        r@.net.identity.ws_port == ws_port,
        r@.net.key is None,
        r@.token is None,
        r@.username is None,
        r@.server_url is None,
        r@.net.peers == Map::<Seq<char>, crate::model::PeerView>::empty(),
        r@.net.ws_conns == Map::<Seq<char>, u64>::empty(),
        r@.net.p2p_conns == Map::<Seq<char>, crate::transport::P2pConn>::empty(),
        r@.net.punch_waiters == Map::<Seq<char>, u64>::empty(),
        r@.net.rtc_waiters == Map::<Seq<char>, u64>::empty(),
        r@.net.clip_pending == Map::<Seq<char>, u64>::empty(),
        r@.net.subs == Map::<Seq<char>, Seq<Seq<char>>>::empty(),
        !r@.net.clip_active,
        r@.net.clip_last.len() == 0,
        r@.net.installed_apps == "[]"@,
        r@.net.directed_transport == "UDP"@,
{
}

/// A device that is given a node id starts under that one.
pub proof fn law_start_as(
    node_id: String,
    name: String,
    ip: String,
    tcp_port: u16,
    udp_port: u16,
    ws_port: u16,
    r: Engine,
)
    requires
        call_ensures(Engine::start_as, (node_id, name, ip, tcp_port, udp_port, ws_port), r),
    ensures
        r@.net.identity == (IdentityView {
            node_id: node_id@,
            name: name@,
            ip: ip@,
            tcp_port,
            udp_port,
            ws_port,
        }),
        r@.net.key is None && r@.token is None && r@.username is None && r@.server_url is None,
        r@.net.peers == Map::<Seq<char>, crate::model::PeerView>::empty(),
{
}

} // verus!
