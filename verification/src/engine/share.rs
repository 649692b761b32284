//! What a device sends of its own accord: chat, its clipboard, and what its user
//! shares with their other devices.

use vstd::prelude::*;

use super::{Engine, EngineView, NetView};
use crate::capabilities::Capabilities;
use crate::events::{outgoing, Outgoing, OutgoingView};
use crate::json::{json_fields, reads_back};
use crate::messages::{
    bare_message, bare_text, call_fields, call_message, call_text, history_fields, history_message,
    history_text, notification_fields, notification_message, notification_text, subscribe_fields,
    subscribe_message, subscribe_text, surely_readable, tagged,
};
use crate::net::{ipv4_of, Endpoint};
use crate::text::{
    eq_ignore_ascii_case, opt_str, same_ignoring_ascii_case, same_text, texts, trim, trimmed,
};
use crate::transport::send::{
    best_proto, best_proto_spec, broadcast_control, control_to, controls_to, send_control_to,
};
use crate::transport::ws::{ws_connect, ws_url};

verus! {

/// How long a clipboard pull waits for its answer.
pub const PULL_SECS: u64 = 6;

/// The directed transport that a setting stands for: "TCP", or "UDP" for anything
/// else.
pub open spec fn directed_spec(t: Seq<char>) -> Seq<char> {
    if same_ignoring_ascii_case(trimmed(t), "tcp"@) {
        "TCP"@
    } else {
        "UDP"@
    }
}

/// Whether one of the packages is this one.
pub open spec fn wants(packages: Seq<Seq<char>>, pkg: Seq<char>) -> bool {
    packages.contains(pkg)
}

/// Those of the first `n` subscribers that want to hear of a package, in order.
pub open spec fn subscribers(
    keys: Seq<Seq<char>>,
    subs: Map<Seq<char>, Seq<Seq<char>>>,
    pkg: Seq<char>,
    n: nat,
) -> Seq<Seq<char>>
    decreases n,
{
    if n == 0 {
        Seq::empty()
    } else {
        let before = subscribers(keys, subs, pkg, (n - 1) as nat);
        if wants(subs[keys[n - 1]], pkg) {
            before.push(keys[n - 1])
        } else {
            before
        }
    }
}

fn holds_text(list: &Vec<String>, s: &str) -> (r: bool)
    ensures
        r == texts(list@).contains(s@),
{
    let mut i: usize = 0;
    while i < list.len()
        invariant
            i <= list.len(),
            forall|j: int| 0 <= j < i ==> (#[trigger] list@[j])@ != s@,
        decreases list.len() - i,
    {
        if same_text(list[i].as_str(), s) {
            assert(texts(list@)[i as int] == s@);
            return true;
        }
        i = i + 1;
    }
    proof {
        if texts(list@).contains(s@) {
            let j = texts(list@).index_of(s@);
            assert(list@[j]@ == s@);
        }
    }
    false
}

impl Engine {
    /// Directed transport setting ("UDP" | "TCP") for peers with no live link.
    pub fn directed_transport(&self) -> (r: String)
        ensures
            r@ == self@.net.directed_transport,
    {
        self.net.directed_transport.clone()
    }

    /// Set the directed transport ("UDP" default, or "TCP"); anything else maps to
    /// UDP. Only affects peers without a live persistent connection.
    pub fn set_directed_transport(&mut self, t: &str)
        ensures
            final(self)@ == (EngineView {
                net: NetView { directed_transport: directed_spec(t@), ..old(self)@.net },
                ..old(self)@
            }),
    {
        self.net.directed_transport = if eq_ignore_ascii_case(trim(t), "tcp") {
            "TCP".to_owned()
        } else {
            "UDP".to_owned()
        };
    }

    /// What to dial for a WebSocket to a peer; `None` where there is a link already.
    pub fn connect_ws(&self, node_id: &str) -> (r: Result<Option<(Endpoint, String)>, String>)
        ensures
            if !self@.net.peers.contains_key(node_id@) {
                r matches Err(e) && e@ == "peer not found"@
            } else if self@.net.peers[node_id@].ws_port == 0 {
                r matches Err(e) && e@ == "peer has no WebSocket port"@
            } else if self@.net.ws_conns.contains_key(node_id@) {
                r matches Ok(t) && t is None
            } else {
                let peer = self@.net.peers[node_id@];
                match ipv4_of(peer.ip) {
                    None => r matches Err(e) && e@ == "bad peer ip"@,
                    Some(ip) => r matches Ok(t) && t is Some && (t->0).0 == (Endpoint {
                        ip,
                        port: peer.ws_port,
                    }) && (t->0).1@ == ws_url(peer.ip, peer.ws_port),
                }
            },
    {
        match self.net.peers.get(node_id) {
            None => Err("peer not found".to_owned()),
            Some(peer) => {
                if peer.ws_port == 0 {
                    return Err("peer has no WebSocket port".to_owned());
                }
                if self.net.ws_conns.contains_key(node_id) {
                    return Ok(None);
                }
                match ws_connect(peer.ip.as_str(), peer.ws_port) {
                    Ok(t) => Ok(Some(t)),
                    Err(e) => Err(e),
                }
            },
        }
    }

    /// A chat message, with the transport it is to take: the active persistent
    /// connection (WS/punch/WebRTC) if one is live, else the directed transport. It
    /// is from the user, or from the device where nobody is logged in.
    pub fn send(&self, node_id: &str, text: &str) -> (r: Outgoing)
        ensures
            r@ == (OutgoingView {
                from: match self@.username {
                    Some(u) => u,
                    None => self@.net.identity.name,
                },
                node_id: node_id@,
                protocol: best_proto_spec(
                    self@.net.ws_conns,
                    self@.net.directed_transport,
                    node_id@,
                ),
                text: text@,
            }),
    {
        Outgoing {
            from: match &self.username {
                Some(u) => u.clone(),
                None => self.net.identity.name.clone(),
            },
            node_id: node_id.to_owned(),
            protocol: best_proto(
                &self.net.ws_conns,
                self.net.directed_transport.as_str(),
                node_id,
            ).to_owned(),
            text: text.to_owned(),
        }
    }

    /// Switch clipboard auto-sync on. What is on the clipboard now (where the host
    /// has one and could read it) is not sent.
    pub fn enable_clipboard_sync(&mut self, current: Option<String>)
        ensures
            final(self)@ == (EngineView {
                net: NetView {
                    clip_active: true,
                    clip_last: match current {
                        Some(c) => c@,
                        None => old(self)@.net.clip_last,
                    },
                    ..old(self)@.net
                },
                ..old(self)@
            }),
    {
        if let Some(c) = current {
            self.net.clip_last = c;
        }
        self.net.clip_active = true;
    }

    pub fn disable_clipboard_sync(&mut self)
        ensures
            final(self)@ == (EngineView {
                net: NetView { clip_active: false, ..old(self)@.net },
                ..old(self)@
            }),
    {
        self.net.clip_active = false;
    }

    pub fn clipboard_sync_enabled(&self) -> (r: bool)
        ensures
            r == self@.net.clip_active,
    {
        self.net.clip_active
    }

    /// Begin to pull a peer's clipboard: the request to send. The answer comes under
    /// `ticket`, and ends up in `finish_pull`.
    pub fn get_clipboard(&mut self, caps: Capabilities, node_id: &str, ticket: u64) -> (r: Result<
        Outgoing,
        String,
    >)
        ensures
            !caps.clipboard ==> (r matches Err(e) && e@ == "clipboard not supported on this device"@)
                && final(self)@ == old(self)@,
            caps.clipboard ==> (r matches Ok(o) && o@ == control_to(
                old(self)@.net,
                node_id@,
                bare_text("clipboard_request"@, old(self)@.net.identity.node_id),
            )) && final(self)@ == (EngineView {
                net: NetView {
                    clip_pending: old(self)@.net.clip_pending.insert(node_id@, ticket),
                    ..old(self)@.net
                },
                ..old(self)@
            }),
            r matches Ok(o) ==> reads_back(
                json_fields(o@.text),
                tagged("clipboard_request"@, old(self)@.net.identity.node_id),
            ),
    {
        if !caps.clipboard {
            return Err("clipboard not supported on this device".to_owned());
        }
        self.net.clip_pending.insert(node_id.to_owned(), ticket);
        let req = bare_message("clipboard_request", self.net.identity.node_id.as_str());
        Ok(send_control_to(&self.net, node_id, req.as_str()))
    }

    /// The request could not be sent: nobody waits any more.
    pub fn cancel_pull(&mut self, node_id: &str)
        ensures
            final(self)@ == (EngineView {
                net: NetView {
                    clip_pending: old(self)@.net.clip_pending.remove(node_id@),
                    ..old(self)@.net
                },
                ..old(self)@
            }),
    {
        let _ = self.net.clip_pending.remove(node_id);
    }

    /// The answer came, or did not come in time. What came is to go on the clipboard,
    /// and is remembered so that auto-sync does not send it on.
    pub fn finish_pull(&mut self, node_id: &str, answer: Option<String>) -> (r: Result<
        String,
        String,
    >)
        ensures
            final(self)@ == (EngineView {
                net: NetView {
                    clip_pending: old(self)@.net.clip_pending.remove(node_id@),
                    clip_last: match answer {
                        Some(c) => c@,
                        None => old(self)@.net.clip_last,
                    },
                    ..old(self)@.net
                },
                ..old(self)@
            }),
            match answer {
                Some(c) => r matches Ok(s) && s@ == c@,
                None => r matches Err(e) && e@
                    == "no clipboard response from peer (is it reachable and using the same key?)"@,
            },
    {
        let _ = self.net.clip_pending.remove(node_id);
        match answer {
            Some(c) => {
                self.net.clip_last = c.clone();
                Ok(c)
            },
            None => Err(
                "no clipboard response from peer (is it reachable and using the same key?)".to_owned(),
            ),
        }
    }

    /// Share an OS notification with all of the user's other devices. They find each of
    /// its fields.
    pub fn share_notification(&self, title: &str, body: &str, app: Option<&str>) -> (r: Vec<
        Outgoing,
    >)
        ensures
            outgoing(r@) == controls_to(
                self@.net,
                self.net.peers.keys_spec(),
                notification_text(self@.net.identity.node_id, title@, body@, opt_str(app)),
            ),
            reads_back(
                json_fields(
                    notification_text(self@.net.identity.node_id, title@, body@, opt_str(app)),
                ),
                notification_fields(self@.net.identity.node_id, title@, body@, opt_str(app)),
            ),
    {
        let msg = notification_message(self.net.identity.node_id.as_str(), title, body, app);
        broadcast_control(&self.net, msg.as_str())
    }

    /// Share an incoming/missed/ended call notification. The other devices find each of
    /// its fields.
    pub fn share_call_notification(&self, caller: &str, number: Option<&str>, state: &str) -> (r:
        Vec<Outgoing>)
        ensures
            outgoing(r@) == controls_to(
                self@.net,
                self.net.peers.keys_spec(),
                call_text(self@.net.identity.node_id, caller@, opt_str(number), state@),
            ),
            reads_back(
                json_fields(
                    call_text(self@.net.identity.node_id, caller@, opt_str(number), state@),
                ),
                call_fields(self@.net.identity.node_id, caller@, opt_str(number), state@),
            ),
    {
        let msg = call_message(self.net.identity.node_id.as_str(), caller, number, state);
        broadcast_control(&self.net, msg.as_str())
    }

    /// Share call-history entries (an opaque JSON array, passed through as it is). Where
    /// the message can be read at all, the other devices find them.
    pub fn share_call_history(&self, entries_json: &str) -> (r: Vec<Outgoing>)
        ensures
            outgoing(r@) == controls_to(
                self@.net,
                self.net.peers.keys_spec(),
                history_text(self@.net.identity.node_id, entries_json@),
            ),
            ({
                let read = json_fields(
                    history_text(self@.net.identity.node_id, entries_json@),
                );
                &&& surely_readable(entries_json@) ==> read is Some
                &&& read is Some ==> reads_back(
                    read,
                    history_fields(self@.net.identity.node_id, entries_json@),
                )
            }),
    {
        let msg = history_message(self.net.identity.node_id.as_str(), entries_json);
        broadcast_control(&self.net, msg.as_str())
    }

    /// Set this device's shareable app list (JSON array of {pkg,label}), pushed by the
    /// host. Producers answer `apps_request` with this.
    pub fn set_installed_apps(&mut self, apps_json: &str)
        ensures
            final(self)@ == (EngineView {
                net: NetView { installed_apps: apps_json@, ..old(self)@.net },
                ..old(self)@
            }),
    {
        self.net.installed_apps = apps_json.to_owned();
    }

    /// Consumer: ask a producer for its app list (the reply arrives as
    /// `CoreEvent::AppsList`).
    pub fn request_apps(&self, node_id: &str) -> (r: Outgoing)
        ensures
            r@ == control_to(
                self@.net,
                node_id@,
                bare_text("apps_request"@, self@.net.identity.node_id),
            ),
            reads_back(
                json_fields(r@.text),
                tagged("apps_request"@, self@.net.identity.node_id),
            ),
    {
        let msg = bare_message("apps_request", self.net.identity.node_id.as_str());
        send_control_to(&self.net, node_id, msg.as_str())
    }

    /// Consumer: set the full enabled package set on a producer, which finds the packages
    /// where the message can be read at all.
    pub fn subscribe_apps(&self, node_id: &str, apps_json: &str) -> (r: Outgoing)
        ensures
            r@ == control_to(
                self@.net,
                node_id@,
                subscribe_text(self@.net.identity.node_id, apps_json@),
            ),
            surely_readable(apps_json@) ==> json_fields(r@.text) is Some,
            json_fields(r@.text) is Some ==> reads_back(
                json_fields(r@.text),
                subscribe_fields(self@.net.identity.node_id, apps_json@),
            ),
    {
        let msg = subscribe_message(self.net.identity.node_id.as_str(), apps_json);
        send_control_to(&self.net, node_id, msg.as_str())
    }

    /// Producer: a local app posted a notification. It goes to every peer subscribed
    /// to that package, as a normal `notification`.
    pub fn share_app_notification(&self, pkg: &str, app: &str, title: &str, body: &str) -> (r: Vec<
        Outgoing,
    >)
        ensures
            outgoing(r@) == controls_to(
                self@.net,
                subscribers(
                    self.net.subs.keys_spec(),
                    self@.net.subs,
                    pkg@,
                    self.net.subs.keys_spec().len(),
                ),
                notification_text(self@.net.identity.node_id, title@, body@, Some(app@)),
            ),
            reads_back(
                json_fields(
                    notification_text(self@.net.identity.node_id, title@, body@, Some(app@)),
                ),
                notification_fields(self@.net.identity.node_id, title@, body@, Some(app@)),
            ),
    {
        proof {
            use_type_invariant(&self.net.subs);
            self.net.subs.law_lists_the_map();
        }
        let msg = notification_message(self.net.identity.node_id.as_str(), title, body, Some(app));
        let ghost keys = self.net.subs.keys_spec();
        let ghost subs = self@.net.subs;
        let n: usize = self.net.subs.len();
        let mut out: Vec<Outgoing> = Vec::new();
        assert(outgoing(out@) =~= controls_to(self@.net, Seq::empty(), msg@));
        for i in 0..n
            invariant
                n == self.net.subs.keys_spec().len(),
                n == self.net.subs.values_spec().len(),
                keys == self.net.subs.keys_spec(),
                subs == self@.net.subs,
                forall|j: int|
                    0 <= j < n ==> #[trigger] self.net.subs@[keys[j]]
                        == self.net.subs.values_spec()[j],
                outgoing(out@) == controls_to(
                    self@.net,
                    subscribers(keys, subs, pkg@, i as nat),
                    msg@,
                ),
        {
            let ghost before = out@;
            let ghost seen = subscribers(keys, subs, pkg@, i as nat);
            assert(self.net.subs@[keys[i as int]] == self.net.subs.values_spec()[i as int]);
            if holds_text(&self.net.subs.value_at(i).packages, pkg) {
                out.push(send_control_to(&self.net, self.net.subs.key_at(i).as_str(), msg.as_str()));
                assert(outgoing(out@) =~= outgoing(before).push(out@.last()@));
                assert(controls_to(self@.net, seen.push(keys[i as int]), msg@) =~= controls_to(
                    self@.net,
                    seen,
                    msg@,
                ).push(control_to(self@.net, keys[i as int], msg@)));
            }
        }
        out
    }
}

proof fn lemma_subscribers(
    keys: Seq<Seq<char>>,
    subs: Map<Seq<char>, Seq<Seq<char>>>,
    pkg: Seq<char>,
    n: nat,
    id: Seq<char>,
)
    requires
        n <= keys.len(),
    ensures
        subscribers(keys, subs, pkg, n).contains(id) <==> keys.take(n as int).contains(id) && wants(
            subs[id],
            pkg,
        ),
    decreases n,
{
    if n > 0 {
        lemma_subscribers(keys, subs, pkg, (n - 1) as nat, id);
        let before = subscribers(keys, subs, pkg, (n - 1) as nat);
        let now = subscribers(keys, subs, pkg, n);
        let last = keys[n - 1];
        assert(keys.take(n as int) =~= keys.take(n - 1).push(last));
        if before.contains(id) {
            let k = before.index_of(id);
            assert(now[k] == id);
        }
        if keys.take(n - 1).contains(id) {
            let k = keys.take(n - 1).index_of(id);
            assert(keys.take(n as int)[k] == id);
        }
        if wants(subs[last], pkg) {
            assert(now[now.len() - 1] == last);
        }
        assert(keys.take(n as int)[n - 1] == last);
        if now.contains(id) && id != last {
            let k = now.index_of(id);
            assert(before[k] == id);
        }
        if keys.take(n as int).contains(id) && id != last {
            let k = keys.take(n as int).index_of(id);
            assert(keys.take(n - 1)[k] == id);
        }
    }
}

/// A local app's notification goes to exactly the peers that are subscribed to it.
pub proof fn law_notification_reaches_subscribers(e: Engine, pkg: Seq<char>, id: Seq<char>)
    requires
        e.net.subs.wf(),
    ensures
        subscribers(
            e.net.subs.keys_spec(),
            e@.net.subs,
            pkg,
            e.net.subs.keys_spec().len(),
        ).contains(id) <==> e@.net.subs.contains_key(id) && wants(e@.net.subs[id], pkg),
{
    let keys = e.net.subs.keys_spec();
    e.net.subs.law_lists_the_map();
    lemma_subscribers(keys, e@.net.subs, pkg, keys.len(), id);
    assert(keys.take(keys.len() as int) =~= keys);
    assert(keys.contains(id) <==> keys.to_set().contains(id));
}

/// Whatever the setting, a device with no live link to a peer sends over the
/// transport that was set, and the setting is one of the two.
pub proof fn law_directed_transport(t: Seq<char>, node_id: Seq<char>)
    ensures
        directed_spec(t) == "TCP"@ || directed_spec(t) == "UDP"@,
        best_proto_spec(Map::empty(), directed_spec(t), node_id) == directed_spec(t),
{
    reveal_strlit("TCP");
    reveal_strlit("UDP");
    reveal_strlit("tcp");
    lemma_trimmed_word("TCP"@);
    lemma_trimmed_word("UDP"@);
    assert("UDP"@[0] == 'U' && "tcp"@[0] == 't');
    assert("TCP"@[0] == 'T' && "TCP"@[1] == 'C' && "TCP"@[2] == 'P');
    assert("tcp"@[1] == 'c' && "tcp"@[2] == 'p');
    assert(same_ignoring_ascii_case("TCP"@, "tcp"@));
    assert(!same_ignoring_ascii_case("UDP"@, "tcp"@));
}

proof fn lemma_trimmed_word(s: Seq<char>)
    requires
        s.len() > 0,
        !crate::text::is_white_space_spec(s[0]),
        !crate::text::is_white_space_spec(s.last()),
    ensures
        trimmed(s) == s,
{
}

} // verus!
