//! Logging in, and the key that messages are encrypted with.

use vstd::prelude::*;

use super::{outcome, Engine, EngineView, NetView};
use crate::crypto::{derive_key, key_inputs_fit, key_of};
use crate::registry::{
    auth_call, base, base_spec, credentials, post_spec, verify_password_call, HttpRequest,
    RequestView, TokenResp,
};
use crate::text::{clone_opt, is_blank, is_blank_spec, opt_text, trim, trimmed};

verus! {

pub struct SessionInfo {
    pub username: Option<String>,
    pub server_url: Option<String>,
    pub has_key: bool,
}

/// What the host keeps over a restart: never a token, never a key.
pub struct SavedSession {
    pub server_url: String,
    pub username: String,
}

/// A request, or the reason why there is none, by its view.
pub open spec fn request_outcome(r: Result<HttpRequest, String>) -> Result<RequestView, Seq<char>> {
    match r {
        Ok(q) => Ok(q@),
        Err(e) => Err(e@),
    }
}

/// The request that logs in or registers.
pub open spec fn auth_request(
    path: Seq<char>,
    server_url: Seq<char>,
    username: Seq<char>,
    password: Seq<char>,
) -> Result<RequestView, Seq<char>> {
    if is_blank_spec(server_url) {
        Err("server URL is required"@)
    } else {
        Ok(post_spec(server_url, path, None, credentials(trimmed(username), password)))
    }
}

/// The state once a key has been derived for a user, or why there is none.
pub open spec fn keyed(
    e: EngineView,
    passphrase: Seq<char>,
    username: Seq<char>,
) -> Result<EngineView, Seq<char>> {
    if key_inputs_fit(passphrase, username) {
        Ok(EngineView { net: NetView { key: key_of(passphrase, username), ..e.net }, ..e })
    } else {
        Err("failed to derive key"@)
    }
}

/// What a login without a server does: it needs a username and a passphrase.
pub open spec fn dev_logged_in(
    e: EngineView,
    username: Seq<char>,
    passphrase: Seq<char>,
) -> Result<EngineView, Seq<char>> {
    if is_blank_spec(username) || is_blank_spec(passphrase) {
        Err("username and encryption key required"@)
    } else {
        keyed(
            EngineView { username: Some(trimmed(username)), ..e },
            passphrase,
            trimmed(username),
        )
    }
}

/// What setting the key does: it needs a login and a passphrase.
pub open spec fn key_set(e: EngineView, passphrase: Seq<char>) -> Result<EngineView, Seq<char>> {
    match e.username {
        None => Err("log in first"@),
        Some(username) => if is_blank_spec(passphrase) {
            Err("encryption key is required"@)
        } else {
            keyed(e, passphrase, username)
        },
    }
}

/// What changing the key does once the server has said whether the password was
/// right.
pub open spec fn key_updated(
    e: EngineView,
    username: Seq<char>,
    passphrase: Seq<char>,
    verdict: Result<bool, Seq<char>>,
) -> Result<EngineView, Seq<char>> {
    match verdict {
        Err(text) => Err(text),
        Ok(right) => if !right {
            Err("incorrect password"@)
        } else if is_blank_spec(passphrase) {
            Err("new encryption key is required"@)
        } else {
            keyed(e, passphrase, username)
        },
    }
}

/// Whether a call changed the state as it should, and said so: on success the state
/// is the new one, else it is unchanged and the error is the one given.
pub open spec fn follows(
    before: EngineView,
    after: EngineView,
    said: Result<(), Seq<char>>,
    should: Result<EngineView, Seq<char>>,
) -> bool {
    match should {
        Ok(next) => after == next && said is Ok,
        Err(text) => after == before && said == Err::<(), Seq<char>>(text),
    }
}

impl Engine {
    pub fn is_ready(&self) -> (r: bool)
        ensures
            r == (self@.token is Some && self@.net.key is Some),
    {
        self.token.is_some() && self.net.key.is_some()
    }

    pub fn session_info(&self) -> (r: SessionInfo)
        ensures
            opt_text(r.username) == self@.username,
            opt_text(r.server_url) == self@.server_url,
            r.has_key == (self@.net.key is Some),
    {
        SessionInfo {
            username: clone_opt(&self.username),
            server_url: clone_opt(&self.server_url),
            has_key: self.net.key.is_some(),
        }
    }

    /// The saved session, from what the host had kept.
    pub fn saved_session(server_url: Option<String>, username: Option<String>) -> (r: SavedSession)
        ensures
            r.server_url@ == match server_url {
                Some(s) => s@,
                None => Seq::empty(),
            },
            r.username@ == match username {
                Some(s) => s@,
                None => Seq::empty(),
            },
    {
        SavedSession {
            server_url: match server_url {
                Some(s) => s,
                None => String::new(),
            },
            username: match username {
                Some(s) => s,
                None => String::new(),
            },
        }
    }

    fn do_auth(path: &str, server_url: &str, username: &str, password: &str) -> (r: Result<
        HttpRequest,
        String,
    >)
        ensures
            request_outcome(r) == auth_request(path@, server_url@, username@, password@),
    {
        if is_blank(server_url) {
            return Err("server URL is required".to_owned());
        }
        Ok(auth_call(server_url, path, trim(username), password))
    }

    /// The request that logs in. Its reply goes to `finish_auth`.
    pub fn auth_login(server_url: &str, username: &str, password: &str) -> (r: Result<
        HttpRequest,
        String,
    >)
        ensures
            request_outcome(r) == auth_request("/auth/login"@, server_url@, username@, password@),
    {
        Engine::do_auth("/auth/login", server_url, username, password)
    }

    /// The request that registers a new user. Its reply goes to `finish_auth`.
    pub fn auth_register(server_url: &str, username: &str, password: &str) -> (r: Result<
        HttpRequest,
        String,
    >)
        ensures
            request_outcome(r) == auth_request(
                "/auth/register"@,
                server_url@,
                username@,
                password@,
            ),
    {
        Engine::do_auth("/auth/register", server_url, username, password)
    }

    /// The server accepted: begin the session. Returns what the host keeps.
    pub fn finish_auth(&mut self, server_url: &str, resp: TokenResp) -> (r: SavedSession)
        ensures
            final(self)@ == (EngineView {
                server_url: Some(base_spec(server_url@)),
                token: Some(resp.token@),
                username: Some(resp.username@),
                ..old(self)@
            }),
            r.server_url@ == base_spec(server_url@),
            r.username@ == resp.username@,
    {
        let url = base(server_url);
        self.server_url = Some(url.clone());
        self.token = Some(resp.token);
        self.username = Some(resp.username.clone());
        SavedSession { server_url: url, username: resp.username }
    }

    fn set_key_for(&mut self, passphrase: &str, username: &str) -> (r: Result<(), String>)
        ensures
            follows(
                old(self)@,
                final(self)@,
                outcome(r),
                keyed(old(self)@, passphrase@, username@),
            ),
            r is Ok ==> final(self)@.net.key is Some,
    {
        match derive_key(passphrase, username) {
            Some(key) => {
                self.net.key = Some(key);
                Ok(())
            },
            None => Err("failed to derive key".to_owned()),
        }
    }

    /// LAN-only: skip the registry. Set a local username and key, so that LAN
    /// discovery and messaging work between devices sharing the same credentials.
    pub fn dev_login(&mut self, username: &str, passphrase: &str) -> (r: Result<(), String>)
        ensures
            follows(
                old(self)@,
                final(self)@,
                outcome(r),
                dev_logged_in(old(self)@, username@, passphrase@),
            ),
            r is Ok ==> final(self)@.net.key is Some,
    {
        if is_blank(username) || is_blank(passphrase) {
            return Err("username and encryption key required".to_owned());
        }
        let name = trim(username);
        match derive_key(passphrase, name) {
            Some(key) => {
                self.username = Some(name.to_owned());
                self.net.key = Some(key);
                Ok(())
            },
            None => Err("failed to derive key".to_owned()),
        }
    }

    /// Set the key from the user's passphrase.
    pub fn set_encryption_key(&mut self, passphrase: &str) -> (r: Result<(), String>)
        ensures
            follows(old(self)@, final(self)@, outcome(r), key_set(old(self)@, passphrase@)),
            r is Ok ==> final(self)@.net.key is Some,
    {
        match clone_opt(&self.username) {
            None => Err("log in first".to_owned()),
            Some(username) => {
                if is_blank(passphrase) {
                    return Err("encryption key is required".to_owned());
                }
                self.set_key_for(passphrase, username.as_str())
            },
        }
    }

    /// Changing the key takes the password. This is the request that checks it, with
    /// the user that it is for; what comes back goes to `finish_update_key`.
    pub fn update_encryption_key(&self, password: &str) -> (r: Result<
        (String, HttpRequest),
        String,
    >)
        ensures
            match (self@.username, self@.server_url) {
                (None, _) => r matches Err(e) && e@ == "log in first"@,
                (Some(_), None) => r matches Err(e) && e@ == "no server"@,
                (Some(username), Some(url)) => r matches Ok(t) && t.0@ == username && t.1@
                    == post_spec(url, "/auth/verify"@, None, credentials(username, password@)),
            },
    {
        match &self.username {
            None => Err("log in first".to_owned()),
            Some(username) => match &self.server_url {
                None => Err("no server".to_owned()),
                Some(url) => Ok(
                    (
                        username.clone(),
                        verify_password_call(url.as_str(), username.as_str(), password),
                    ),
                ),
            },
        }
    }

    /// Change the key, given what the server said of the password.
    pub fn finish_update_key(
        &mut self,
        username: &str,
        new_passphrase: &str,
        verdict: Result<bool, String>,
    ) -> (r: Result<(), String>)
        ensures
            follows(
                old(self)@,
                final(self)@,
                outcome(r),
                key_updated(
                    old(self)@,
                    username@,
                    new_passphrase@,
                    crate::registry::verdict_view(verdict),
                ),
            ),
            r is Ok ==> final(self)@.net.key is Some,
    {
        match verdict {
            Err(e) => Err(e),
            Ok(right) => {
                if !right {
                    return Err("incorrect password".to_owned());
                }
                if is_blank(new_passphrase) {
                    return Err("new encryption key is required".to_owned());
                }
                self.set_key_for(new_passphrase, username)
            },
        }
    }

    /// A random key for the user to take as a passphrase.
    pub fn generate_key(&self) -> (r: String)
        ensures
            r@.len() == 32,
            !r@.contains('='),
            crate::encoding::base64_bytes(r@) matches Some(b) && b.len() == 24,
    {
        crate::crypto::generate_key()
    }

    /// Forget the token and the key.
    pub fn logout(&mut self)
        ensures
            final(self)@ == (EngineView {
                token: None,
                net: NetView { key: None, ..old(self)@.net },
                ..old(self)@
            }),
    {
        self.token = None;
        self.net.key = None;
    }
}

/// One user's devices, given the same passphrase, have the same key, whatever else
/// their state is: what one encrypts, every other can open.
pub proof fn law_same_credentials_same_key(
    a: EngineView,
    b: EngineView,
    username: Seq<char>,
    passphrase: Seq<char>,
)
    requires
        dev_logged_in(a, username, passphrase) is Ok,
    ensures
        dev_logged_in(b, username, passphrase) is Ok,
        dev_logged_in(a, username, passphrase)->Ok_0.net.key == dev_logged_in(
            b,
            username,
            passphrase,
        )->Ok_0.net.key,
{
}

} // verus!
