//! Texts, addresses, and what the core's values are to a reader.

use vstd::prelude::*;

use crate::crypto::{decrypt_bytes, encrypt_with, generate_key, key_text, opened, sealed};
use crate::encoding::base64_text;
use crate::engine::ladder::poll_steps;
use crate::engine::{Engine, NetCtx};
use crate::events::{CoreEvent, Effect, EffectView, EventView, Outgoing};
use crate::json::{Item, ItemView};
use crate::model::{
    Beacon, Envelope, EnvelopeView, Identity, IncomingMessage, Peer, WsFrame, WsFrameView,
};
use crate::net::{dotted, Ipv4};
use crate::registry::HttpRequest;
use crate::signal::{candidates_view, Candidate, Signal, SignalView};
use crate::text::{
    decimal_text, eq_ignore_ascii_case, is_blank, is_white_space, is_white_space_spec, trim,
    trimmed, trimmed_end, trimmed_start,
};

verus! {

/// Whether a text is nothing but white space.
pub open spec fn all_white(s: Seq<char>) -> bool {
    forall|i: int| 0 <= i < s.len() ==> is_white_space_spec(#[trigger] s[i])
}

/// White space is what Unicode says it is.
pub proof fn law_white_space(c: char, r: bool)
    requires
        call_ensures(is_white_space, (c,), r),
    ensures
        r <==> is_white_space_spec(c),
        r <==> {
            let u = c as int;
            9 <= u <= 13 || u == 32 || u == 133 || u == 160 || u == 5760 || 8192 <= u <= 8202 || u
                == 8232 || u == 8233 || u == 8239 || u == 8287 || u == 12288
        },
{
}

/// White space around a text is trimmed, and the text itself stays.
pub proof fn law_trimmed_core(lead: Seq<char>, core: Seq<char>, trail: Seq<char>)
    requires
        all_white(lead),
        all_white(trail),
        core.len() > 0,
        !is_white_space_spec(core[0]),
        !is_white_space_spec(core.last()),
    ensures
        trimmed(lead + core + trail) == core,
{
    lemma_trim_lead(lead, core + trail);
    assert(lead + (core + trail) =~= lead + core + trail);
    lemma_trim_trail(core, trail);
}

proof fn lemma_trim_lead(lead: Seq<char>, s: Seq<char>)
    requires
        all_white(lead),
        s.len() > 0,
        !is_white_space_spec(s[0]),
    ensures
        trimmed_start(lead + s) == s,
    decreases lead.len(),
{
    if lead.len() == 0 {
        assert(lead + s =~= s);
    } else {
        assert((lead + s)[0] == lead[0]);
        assert((lead + s).drop_first() =~= lead.drop_first() + s);
        lemma_trim_lead(lead.drop_first(), s);
    }
}

proof fn lemma_trim_trail(s: Seq<char>, trail: Seq<char>)
    requires
        all_white(trail),
        s.len() > 0,
        !is_white_space_spec(s.last()),
    ensures
        trimmed_end(s + trail) == s,
    decreases trail.len(),
{
    if trail.len() == 0 {
        assert(s + trail =~= s);
    } else {
        assert((s + trail).last() == trail.last());
        assert((s + trail).drop_last() =~= s + trail.drop_last());
        lemma_trim_trail(s, trail.drop_last());
    }
}

proof fn lemma_trim_white(s: Seq<char>)
    requires
        all_white(s),
    ensures
        trimmed_start(s).len() == 0,
    decreases s.len(),
{
    if s.len() > 0 {
        assert(is_white_space_spec(s[0]));
        lemma_trim_white(s.drop_first());
    }
}

/// Trimming takes white space from both ends of a text and nothing else; a text is blank
/// where nothing is left.
pub proof fn law_trim(
    s: &str,
    lead: Seq<char>,
    core: Seq<char>,
    trail: Seq<char>,
    r: &str,
    blank: bool,
)
    requires
        call_ensures(trim, (s,), r),
        call_ensures(is_blank, (s,), blank),
    ensures
        all_white(s@) ==> r@.len() == 0 && blank,
        s@ == lead + core + trail && all_white(lead) && all_white(trail) && core.len() > 0
            && !is_white_space_spec(core[0]) && !is_white_space_spec(core.last()) ==> r@ == core
            && !blank,
{
    if all_white(s@) {
        lemma_trim_white(s@);
    }
    if s@ == lead + core + trail && all_white(lead) && all_white(trail) && core.len() > 0
        && !is_white_space_spec(core[0]) && !is_white_space_spec(core.last()) {
        law_trimmed_core(lead, core, trail);
    }
}

/// Whether two characters are the same, or the same ASCII letter in two cases.
pub open spec fn same_letter(x: char, y: char) -> bool {
    ||| x == y
    ||| 'A' <= x <= 'Z' && y as int == x as int + 32
    ||| 'a' <= x <= 'z' && x as int == y as int + 32
}

proof fn lemma_same_letter(x: char, y: char)
    ensures
        same_letter(x, y) <==> crate::text::ascii_lower(x) == crate::text::ascii_lower(y),
{
}

/// Two texts that differ in the case of ASCII letters only count as the same, and no others.
pub proof fn law_same_but_for_case(a: &str, b: &str, r: bool)
    requires
        call_ensures(eq_ignore_ascii_case, (a, b), r),
    ensures
        r <==> a@.len() == b@.len() && forall|i: int|
            0 <= i < a@.len() ==> same_letter(#[trigger] a@[i], b@[i]),
{
    assert forall|i: int| 0 <= i < a@.len() implies same_letter(#[trigger] a@[i], b@[i]) == (
    crate::text::ascii_lower(a@[i]) == crate::text::ascii_lower(b@[i])) by {
        lemma_same_letter(a@[i], b@[i]);
    }
}

/// The number that decimal digits stand for.
pub open spec fn numeral(s: Seq<char>) -> int
    decreases s.len(),
{
    if s.len() == 0 {
        0
    } else {
        numeral(s.drop_last()) * 10 + (s.last() as u32 - 0x30)
    }
}

proof fn lemma_decimal(n: nat)
    ensures
        numeral(crate::text::decimal(n)) == n,
        crate::text::decimal(n).len() > 0,
        n > 0 ==> crate::text::decimal(n)[0] != '0',
        forall|i: int|
            0 <= i < crate::text::decimal(n).len() ==> '0' <= #[trigger] crate::text::decimal(n)[i]
                <= '9',
    decreases n,
{
    let s = crate::text::decimal(n);
    if n < 10 {
        assert(s.drop_last() =~= Seq::empty());
        reveal_with_fuel(numeral, 2);
    } else {
        lemma_decimal(n / 10);
        assert(s.drop_last() =~= crate::text::decimal(n / 10));
        assert(s.last() == crate::text::digit_char(n % 10));
    }
}

/// A number in decimal is made of digits, has no leading zero, and stands for the number.
pub proof fn law_decimal_text(n: u64, r: String)
    requires
        call_ensures(decimal_text, (n,), r),
    ensures
        numeral(r@) == n,
        r@.len() > 0,
        n > 0 ==> r@[0] != '0',
        forall|i: int| 0 <= i < r@.len() ==> '0' <= #[trigger] r@[i] <= '9',
{
    lemma_decimal(n as nat);
}

/// An address is written as its four octets in order, with dots between them, and what is
/// written so is read as that address.
pub proof fn law_address_text(ip: Ipv4, text: String, s: &str, read: Option<Ipv4>)
    requires
        call_ensures(Ipv4::to_text, (&ip,), text),
        s@ == text@,
        call_ensures(Ipv4::parse, (s,), read),
    ensures
        read == Some(ip),
        exists|a: Seq<char>, b: Seq<char>, c: Seq<char>, d: Seq<char>|
            #[trigger] octets(text@, a, b, c, d) && numeral(a) == ip.a && numeral(b) == ip.b
                && numeral(c) == ip.c && numeral(d) == ip.d,
{
    crate::net::law_ipv4_round_trip(ip);
    let a = crate::text::decimal(ip.a as nat);
    let b = crate::text::decimal(ip.b as nat);
    let c = crate::text::decimal(ip.c as nat);
    let d = crate::text::decimal(ip.d as nat);
    lemma_decimal(ip.a as nat);
    lemma_decimal(ip.b as nat);
    lemma_decimal(ip.c as nat);
    lemma_decimal(ip.d as nat);
    assert(text@ =~= a + seq!['.'] + b + seq!['.'] + c + seq!['.'] + d);
    assert(octets(text@, a, b, c, d));
}

/// Whether a text is four texts with dots between them.
pub open spec fn octets(
    s: Seq<char>,
    a: Seq<char>,
    b: Seq<char>,
    c: Seq<char>,
    d: Seq<char>,
) -> bool {
    s == a + seq!['.'] + b + seq!['.'] + c + seq!['.'] + d
}

/// A text that is read as an address is the one that the address is written as.
pub proof fn law_address_is_read(s: &str, r: Option<Ipv4>, text: String)
    requires
        call_ensures(Ipv4::parse, (s,), r),
        r matches Some(ip) ==> call_ensures(Ipv4::to_text, (&ip,), text),
    ensures
        r is Some ==> text@ == s@,
{
    if let Some(ip) = r {
        let x = choose|x: Ipv4| s@ == #[trigger] dotted(x);
        assert(x == ip);
    }
}

/// Loopback addresses begin with 127; the unspecified address is 0.0.0.0.
pub proof fn law_special_addresses(ip: Ipv4, loopback: bool, unspecified: bool)
    requires
        call_ensures(Ipv4::is_loopback, (&ip,), loopback),
        call_ensures(Ipv4::is_unspecified, (&ip,), unspecified),
    ensures
        loopback <==> ip.a == 127,
        unspecified <==> ip == (Ipv4 { a: 0, b: 0, c: 0, d: 0 }),
{
}

/// A wait is looked at every tenth of a second.
pub proof fn law_poll_steps(ms: u64, r: u64)
    requires
        call_ensures(poll_steps, (ms,), r),
    ensures
        r * 100 <= ms < (r + 1) * 100,
        crate::engine::ladder::POLL_MS == 100,
{
}

/// An envelope holds the nonce and what the plaintext is sealed to, each in base64.
pub proof fn law_envelope_holds(
    key: [u8; 32],
    nonce: [u8; 24],
    plaintext: &[u8],
    r: Option<Envelope>,
)
    requires
        call_ensures(encrypt_with, (&key, &nonce, plaintext), r),
    ensures
        r is Some <==> plaintext@.len() <= 64 * (0xFFFF_FFFF - 1),
        r matches Some(env) ==> env@ == (EnvelopeView {
            nonce: base64_text(nonce@),
            ciphertext: base64_text(sealed(key@, nonce@, plaintext@)),
        }),
{
}

/// Sealed bytes open under a nonce of 24 bytes to what they are, and under no other.
pub proof fn law_sealed_bytes_open(
    key: [u8; 32],
    nonce: &[u8],
    ciphertext: &[u8],
    r: Option<Vec<u8>>,
)
    requires
        call_ensures(decrypt_bytes, (&key, nonce, ciphertext), r),
    ensures
        nonce@.len() != 24 ==> r is None,
        nonce@.len() == 24 && ciphertext@.len() <= 64 * (0xFFFF_FFFF - 1) + 16 ==> match r {
            Some(p) => opened(key@, nonce@, ciphertext@) == Some(p@),
            None => opened(key@, nonce@, ciphertext@) is None,
        },
        r matches Some(p) ==> p@.len() + 16 == ciphertext@.len(),
{
}

/// A key in text is the base64 of its bytes; a generated one is that of some 24 bytes.
pub proof fn law_key_text(bytes: [u8; 24], given: String, drawn: String)
    requires
        call_ensures(key_text, (&bytes,), given),
        call_ensures(generate_key, (), drawn),
    ensures
        given@ == base64_text(bytes@),
        given@.len() == 32 && drawn@.len() == 32,
        !given@.contains('=') && !drawn@.contains('='),
        exists|b: Seq<u8>| #[trigger] base64_text(b) == drawn@ && b.len() == 24,
{
}

/// What a record is seen as is what it holds.
pub proof fn law_records_are_seen_as_they_are(
    id: Identity,
    b: Beacon,
    p: Peer,
    m: IncomingMessage,
    env: Envelope,
    c: Candidate,
    o: Outgoing,
    q: HttpRequest,
)
    ensures
        id@.node_id == id.node_id@ && id@.name == id.name@ && id@.ip == id.ip@ && id@.tcp_port
            == id.tcp_port && id@.udp_port == id.udp_port && id@.ws_port == id.ws_port,
        b@.node_id == b.node_id@ && b@.name == b.name@ && b@.tcp_port == b.tcp_port && b@.udp_port
            == b.udp_port && b@.ws_port == b.ws_port && b@.reply == b.reply,
        p@.node_id == p.node_id@ && p@.name == p.name@ && p@.ip == p.ip@ && p@.tcp_port
            == p.tcp_port && p@.udp_port == p.udp_port && p@.ws_port == p.ws_port && p@.source
            == p.source && p@.ws_open == p.ws_open && p@.inbound_blocked == p.inbound_blocked
            && p@.reflexive_udp_port == p.reflexive_udp_port,
        p.reflexive_ip is Some <==> p@.reflexive_ip is Some,
        p.reflexive_ip matches Some(s) ==> p@.reflexive_ip == Some(s@),
        m@.from == m.from@ && m@.ip == m.ip@ && m@.protocol == m.protocol@ && m@.text == m.text@
            && m@.ts == m.ts && m@.ok == m.ok,
        env@.nonce == env.nonce@ && env@.ciphertext == env.ciphertext@,
        c@.ip == c.ip@ && c@.port == c.port && c@.kind == c.kind@,
        o@.from == o.from@ && o@.node_id == o.node_id@ && o@.protocol == o.protocol@ && o@.text
            == o.text@,
        q@.method == q.method && q@.url == q.url@ && q@.timeout_secs == q.timeout_secs,
        q.authorization is Some <==> q@.authorization is Some,
        q.authorization matches Some(s) ==> q@.authorization == Some(s@),
        q.body is Some <==> q@.body is Some,
        q.body matches Some(s) ==> q@.body == Some(s@),
{
}

/// What a signal is seen as is what it says.
pub proof fn law_signals_are_seen_as_they_are(s: Signal)
    ensures
        s matches Signal::StartWs { sid } ==> s@ == (SignalView::StartWs { sid: sid@ }),
        s matches Signal::WsReady { sid, ip, ws_port } ==> s@ == (SignalView::WsReady {
            sid: sid@,
            ip: ip@,
            ws_port,
        }),
        s matches Signal::WsUnavailable { sid, reason } ==> s@ == (SignalView::WsUnavailable {
            sid: sid@,
            reason: reason@,
        }),
        s matches Signal::PunchOffer { sid, candidates, start_in_ms } ==> s@ == (
        SignalView::PunchOffer {
            sid: sid@,
            candidates: candidates_view(candidates@),
            start_in_ms,
        }),
        s matches Signal::PunchAnswer { sid, candidates, start_in_ms } ==> s@ == (
        SignalView::PunchAnswer {
            sid: sid@,
            candidates: candidates_view(candidates@),
            start_in_ms,
        }),
        s matches Signal::PunchReady { sid } ==> s@ == (SignalView::PunchReady { sid: sid@ }),
        s matches Signal::PunchFailed { sid, reason } ==> s@ == (SignalView::PunchFailed {
            sid: sid@,
            reason: reason@,
        }),
        s matches Signal::RelayAnswer { sid } ==> s@ == (SignalView::RelayAnswer { sid: sid@ }),
        s matches Signal::RelayOffer { sid, turn_uri, username, credential } ==> s@ == (
        SignalView::RelayOffer {
            sid: sid@,
            turn_uri: turn_uri@,
            username: username@,
            credential: credential@,
        }),
        s matches Signal::SdpOffer { sid, sdp } ==> s@ == (SignalView::SdpOffer {
            sid: sid@,
            sdp: sdp@,
        }),
        s matches Signal::SdpAnswer { sid, sdp } ==> s@ == (SignalView::SdpAnswer {
            sid: sid@,
            sdp: sdp@,
        }),
        s matches Signal::Bye { sid } ==> s@ == (SignalView::Bye { sid: sid@ }),
{
}

/// What a list of candidates is seen as is the candidates, in order.
pub proof fn law_candidates_are_seen_as_they_are(s: Seq<Candidate>, i: int)
    ensures
        candidates_view(s).len() == s.len(),
        0 <= i < s.len() ==> candidates_view(s)[i] == s[i]@,
{
}

/// What a state is seen as is what it holds.
pub proof fn law_states_are_seen_as_they_are(ctx: NetCtx, e: Engine)
    ensures
        ctx@.identity == ctx.identity@ && ctx@.peers == ctx.peers@ && ctx@.ws_conns == ctx.ws_conns@
            && ctx@.p2p_conns == ctx.p2p_conns@ && ctx@.punch_waiters == ctx.punch_waiters@
            && ctx@.rtc_waiters == ctx.rtc_waiters@ && ctx@.clip_active == ctx.clip_active
            && ctx@.clip_last == ctx.clip_last@ && ctx@.clip_pending == ctx.clip_pending@
            && ctx@.installed_apps == ctx.installed_apps@ && ctx@.subs == ctx.subs@
            && ctx@.directed_transport == ctx.directed_transport@,
        ctx.key is Some <==> ctx@.key is Some,
        ctx.key matches Some(k) ==> ctx@.key == Some(k@),
        e@.net == e.net@,
        e.token is Some <==> e@.token is Some,
        e.token matches Some(t) ==> e@.token == Some(t@),
        e.username is Some <==> e@.username is Some,
        e.username matches Some(t) ==> e@.username == Some(t@),
        e.server_url is Some <==> e@.server_url is Some,
        e.server_url matches Some(t) ==> e@.server_url == Some(t@),
{
}

/// What an event is seen as is what it says.
pub proof fn law_events_are_seen_as_they_are(ev: CoreEvent)
    ensures
        ev matches CoreEvent::PeersUpdated { peers } ==> (ev@ matches EventView::PeersUpdated {
            peers: p,
        } && p.len() == peers@.len() && forall|i: int| 0 <= i < p.len() ==> #[trigger] p[i]
            == peers@[i]@),
        ev matches CoreEvent::MessageReceived(m) ==> ev@ == EventView::MessageReceived(m@),
        ev matches CoreEvent::WsConnected { node_id } ==> ev@ == (EventView::WsConnected {
            node_id: node_id@,
        }),
        ev matches CoreEvent::WsDisconnected { node_id } ==> ev@ == (EventView::WsDisconnected {
            node_id: node_id@,
        }),
        ev matches CoreEvent::PeerConnected { node_id, transport } ==> ev@ == (
        EventView::PeerConnected { node_id: node_id@, transport }),
        ev matches CoreEvent::PeerDisconnected { node_id } ==> ev@ == (
        EventView::PeerDisconnected { node_id: node_id@ }),
        ev matches CoreEvent::ConnectProgress { node_id, stage, detail } ==> (ev@ matches
            EventView::ConnectProgress { node_id: n, stage: s, detail: d } && n == node_id@ && s
            == stage@ && (detail is Some <==> d is Some) && (detail matches Some(t) ==> d == Some(
            t@,
        ))),
        ev matches CoreEvent::Clipboard { from, ip, protocol, action } ==> ev@ == (
        EventView::Clipboard { from: from@, ip: ip@, protocol: protocol@, action: action@ }),
        ev matches CoreEvent::Notification { from, title, body, app } ==> (ev@ matches
            EventView::Notification { from: f, title: t, body: b, app: a } && f == from@ && t
            == title@ && b == body@ && (app is Some <==> a is Some) && (app matches Some(x) ==> a
            == Some(x@))),
        ev matches CoreEvent::CallNotification { from, caller, number, state } ==> (ev@ matches
            EventView::CallNotification { from: f, caller: c, number: n, state: s } && f == from@
            && c == caller@ && s == state@ && (number is Some <==> n is Some) && (number matches
            Some(x) ==> n == Some(x@))),
        ev matches CoreEvent::CallHistory { from, entries } ==> ev@ == (EventView::CallHistory {
            from: from@,
            entries: entries@,
        }),
        ev matches CoreEvent::AppsList { from, apps, subscribed } ==> ev@ == (EventView::AppsList {
            from: from@,
            apps: apps@,
            subscribed: subscribed@,
        }),
{
}

/// What an effect, a frame or a value to write is seen as is what it says.
pub proof fn law_effects_are_seen_as_they_are(e: Effect, f: WsFrame, item: Item, list: Seq<Effect>)
    ensures
        e matches Effect::Emit(ev) ==> e@ == EffectView::Emit(ev@),
        e matches Effect::Send(o) ==> e@ == EffectView::Send(o@),
        e matches Effect::SetClipboard(s) ==> e@ == EffectView::SetClipboard(s@),
        e matches Effect::Notify { title, body } ==> e@ == (EffectView::Notify {
            title: title@,
            body: body@,
        }),
        e matches Effect::ReadClipboard { requester } ==> e@ == (EffectView::ReadClipboard {
            requester: requester@,
        }),
        e matches Effect::AnswerPull { ticket, content } ==> e@ == (EffectView::AnswerPull {
            ticket,
            content: content@,
        }),
        crate::events::effects(list).len() == list.len(),
        forall|i: int|
            0 <= i < list.len() ==> #[trigger] crate::events::effects(list)[i] == list[i]@,
        f matches WsFrame::Hello { node_id, name } ==> f@ == (WsFrameView::Hello {
            node_id: node_id@,
            name: name@,
        }),
        f matches WsFrame::Msg { nonce, ciphertext } ==> f@ == (WsFrameView::Msg {
            nonce: nonce@,
            ciphertext: ciphertext@,
        }),
        item matches Item::Text(s) ==> item@ == ItemView::Text(s@),
        item matches Item::Number(n) ==> item@ == ItemView::Number(n),
        item matches Item::Flag(b) ==> item@ == ItemView::Flag(b),
        item matches Item::Raw(s) ==> item@ == ItemView::Raw(s@),
        item is Null ==> item@ is Null,
{
}

} // verus!
