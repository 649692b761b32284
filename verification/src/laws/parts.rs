//! The parts that the operations are put together from.

use vstd::prelude::*;

use crate::crypto::{encrypt, sealed};
use crate::discovery::{emit_peers, peer_list};
use crate::encoding::base64_text;
use crate::engine::ladder::is_live;
use crate::engine::NetCtx;
use crate::error::CoreError;
use crate::events::{
    add_effect, add_effects, effects, no_effects, one_effect, CoreEvent, Effect, EffectView,
    EventView,
};
use crate::features::{only_texts, ControlHandler, ControlMsg, ControlRegistry, Feature};
use crate::json::{
    field, fields_view, find_field, items_field, json_fields, parse_fields, text_field, JsonField,
    JsonFieldView,
};
use crate::laws::peers::tells_peers;
use crate::model::{Envelope, Identity, IncomingMessage, Peer};
use crate::node_map::NodeMap;
use crate::service::{Service, ServiceId};
use crate::services::av::AvService;
use crate::services::remotecontrol::RemoteControlService;
use crate::signal::{Candidate, Signal};
use crate::text::{
    clone_opt, clone_texts, find_from, join, same_text, stands_at, texts, trim_end_char,
};
use crate::transport::rtc::RtcLink;
use crate::transport::ws::WsSession;
use crate::transport::TransportKind;
use crate::traversal::punch::{after, due};
use crate::wire::be::{
    copy_range, push_be16, push_be32, push_bytes, read_be16, read_be32, same_bytes, starts_with,
};

verus! {

/// What is encrypted is sealed under the key and some nonce of 24 bytes.
pub proof fn law_encrypted_under_some_nonce(key: [u8; 32], plaintext: &[u8], r: Option<Envelope>)
    requires
        call_ensures(encrypt, (&key, plaintext), r),
    ensures
        r is Some <==> plaintext@.len() <= 64 * (0xFFFF_FFFF - 1),
        r matches Some(env) ==> exists|nonce: Seq<u8>| #[trigger]
            base64_text(nonce) == env@.nonce && nonce.len() == 24 && env@.ciphertext
                == base64_text(sealed(key@, nonce, plaintext@)),
{
    let nonce = choose|nonce: Seq<u8>| #[trigger]
        crate::crypto::sealed_envelope(key@, nonce, plaintext@) == crate::crypto::opt_envelope(r)
            && nonce.len() == 24;
    if let Some(env) = r {
        assert(crate::crypto::sealed_envelope(key@, nonce, plaintext@) == Some(env@));
        assert(base64_text(nonce) == env@.nonce);
    }
}

/// A peer is live exactly where it has a live link.
pub proof fn law_is_live(ctx: NetCtx, node_id: &str, r: bool)
    requires
        call_ensures(is_live, (&ctx, node_id), r),
    ensures
        r <==> ctx@.p2p_conns.contains_key(node_id@),
{
}

/// An error says what it was made from, and nothing more.
pub proof fn law_error_text(s: &str, t: String, a: CoreError, b: CoreError, c: CoreError, m: String)
    requires
        call_ensures(CoreError::from_text, (s,), a),
        call_ensures(<CoreError as From<&str>>::from, (s,), b),
        call_ensures(<CoreError as From<String>>::from, (t,), c),
        call_ensures(CoreError::message, (&a,), m),
    ensures
        m@ == s@,
        a.0@ == s@,
        b.0@ == s@,
        c.0@ == t@,
{
}

/// An error turns back into its text.
pub proof fn law_error_becomes_text(e: CoreError, r: String)
    requires
        call_ensures(<String as From<CoreError>>::from, (e,), r),
    ensures
        r@ == e.0@,
{
}

/// The first field with a key is found, where there is one.
pub proof fn law_field_is_found(fields: Vec<JsonField>, key: &str, r: Option<&JsonField>)
    requires
        call_ensures(find_field, (&fields, key), r),
    ensures
        r is None <==> forall|i: int| 0 <= i < fields@.len() ==> (#[trigger] fields@[i]).key@ != key@,
        r matches Some(f) ==> exists|i: int|
            0 <= i < fields@.len() && (#[trigger] fields@[i])@ == f@ && f@.key == key@ && forall|
                j: int,
            | 0 <= j < i ==> (#[trigger] fields@[j]).key@ != key@,
{
    let all = fields_view(fields@);
    lemma_field(all, key@);
    assert(all.len() == fields@.len());
    assert(forall|i: int| 0 <= i < all.len() ==> #[trigger] all[i] == fields@[i]@);
    if let Some(f) = r {
        let i = choose|i: int|
            0 <= i < all.len() && #[trigger] all[i] == f@ && forall|j: int|
                0 <= j < i ==> (#[trigger] all[j]).key != key@;
        assert(fields@[i]@ == f@);
        assert forall|j: int| 0 <= j < i implies (#[trigger] fields@[j]).key@ != key@ by {
            assert(all[j].key != key@);
        }
    } else {
        assert forall|i: int| 0 <= i < fields@.len() implies (#[trigger] fields@[i]).key@ != key@ by {
            assert(all[i].key != key@);
        }
    }
}

proof fn lemma_field(all: Seq<JsonFieldView>, key: Seq<char>)
    ensures
        field(all, key) is None <==> forall|i: int|
            0 <= i < all.len() ==> (#[trigger] all[i]).key != key,
        field(all, key) matches Some(f) ==> f.key == key && exists|i: int|
            0 <= i < all.len() && #[trigger] all[i] == f && forall|j: int|
                0 <= j < i ==> (#[trigger] all[j]).key != key,
    decreases all.len(),
{
    if all.len() > 0 && all[0].key != key {
        let rest = all.skip(1);
        lemma_field(rest, key);
        match field(rest, key) {
            Some(f) => {
                let i = choose|i: int|
                    0 <= i < rest.len() && #[trigger] rest[i] == f && forall|j: int|
                        0 <= j < i ==> (#[trigger] rest[j]).key != key;
                assert(all[i + 1] == f);
                assert forall|j: int| 0 <= j < i + 1 implies (#[trigger] all[j]).key != key by {
                    if j > 0 {
                        assert(rest[j - 1] == all[j]);
                    }
                }
            },
            None => {
                assert forall|i: int| 0 <= i < all.len() implies (#[trigger] all[i]).key != key by {
                    if i > 0 {
                        assert(rest[i - 1] == all[i]);
                    }
                }
            },
        }
    } else if all.len() > 0 {
        assert(all[0] == all[0]);
    }
}

/// A field is read in the form that is asked for: as a string where it is one, as an array
/// where it is one; and a text has the fields and the value that it is read as.
pub proof fn law_fields_are_read(fields: Seq<JsonFieldView>, key: Seq<char>, text: Seq<char>)
    ensures
        field(fields, key) is None ==> text_field(fields, key) is None && items_field(fields, key)
            is None,
        field(fields, key) matches Some(f) ==> text_field(fields, key) == f.value.text
            && items_field(fields, key) == f.value.items,
        crate::json::json_doc(text) is None ==> json_fields(text) is None
            && crate::json::json_value(text) is None,
        crate::json::json_doc(text) matches Some(d) ==> json_fields(text) == Some(d.fields)
            && crate::json::json_value(text) == Some(d.value),
{
}

/// A control message is its carrier and the fields of its text, and each of its fields is
/// read as it stands there.
pub proof fn law_control_msg<'a>(
    from: &'a str,
    ip: &'a str,
    protocol: &'a str,
    text: &str,
    key: &str,
    parsed: Option<ControlMsg<'a>>,
    m: ControlMsg<'a>,
    kind: &str,
    s: String,
    o: Option<String>,
    j: String,
    l: Vec<String>,
)
    requires
        call_ensures(ControlMsg::parse, (from, ip, protocol, text), parsed),
        parsed == Some(m),
        call_ensures(ControlMsg::kind, (&m,), kind),
        call_ensures(ControlMsg::str, (&m, key), s),
        call_ensures(ControlMsg::opt, (&m, key), o),
        call_ensures(ControlMsg::json, (&m, key), j),
        call_ensures(ControlMsg::strings, (&m, key), l),
    ensures
        json_fields(text@) matches Some(fields) && {
            &&& m.from@ == from@ && m.ip@ == ip@ && m.protocol@ == protocol@
            &&& text_field(fields, "type"@) matches Some(t) ==> kind@ == t
            &&& text_field(fields, "type"@) is None ==> kind@.len() == 0
            &&& text_field(fields, key@) matches Some(t) ==> s@ == t && (o matches Some(x) && x@
                == t)
            &&& text_field(fields, key@) is None ==> s@.len() == 0 && o is None
            &&& field(fields, key@) matches Some(f) ==> j@ == f.value.raw
            &&& field(fields, key@) is None ==> j@ == "null"@ && l@.len() == 0
            &&& items_field(fields, key@) matches Some(items) ==> texts(l@) == only_texts(items)
            &&& items_field(fields, key@) is None ==> l@.len() == 0
        },
{
    assert(texts(l@).len() == l@.len());
}

/// A text that is no JSON is no control message.
pub proof fn law_no_control_msg<'a>(
    from: &'a str,
    ip: &'a str,
    protocol: &'a str,
    text: &str,
    parsed: Option<ControlMsg<'a>>,
    fields: Option<Vec<JsonField>>,
)
    requires
        call_ensures(ControlMsg::parse, (from, ip, protocol, text), parsed),
        call_ensures(parse_fields, (text,), fields),
    ensures
        parsed is None <==> json_fields(text@) is None,
        fields is None <==> json_fields(text@) is None,
        fields matches Some(v) ==> json_fields(text@) == Some(fields_view(v@)),
{
}

/// Of an array the strings are kept, all of them and in order, and what is no string is
/// passed over.
pub proof fn law_only_texts(
    a: Seq<Option<Seq<char>>>,
    b: Seq<Option<Seq<char>>>,
    s: Seq<char>,
)
    ensures
        only_texts(Seq::empty()) == Seq::<Seq<char>>::empty(),
        only_texts(a + b) == only_texts(a) + only_texts(b),
        only_texts(seq![Some(s)]) == seq![s],
        only_texts(seq![None]) == Seq::<Seq<char>>::empty(),
    decreases b.len(),
{
    let one: Seq<Option<Seq<char>>> = seq![Some(s)];
    let none: Seq<Option<Seq<char>>> = seq![None];
    let empty: Seq<Option<Seq<char>>> = Seq::empty();
    assert(one.drop_last() =~= empty && none.drop_last() =~= empty);
    reveal_with_fuel(only_texts, 2);
    assert(only_texts(one) =~= seq![s]);
    if b.len() == 0 {
        assert(a + b =~= a);
        assert(only_texts(a) + only_texts(b) =~= only_texts(a));
    } else {
        law_only_texts(a, b.drop_last(), s);
        assert((a + b).drop_last() =~= a + b.drop_last());
        assert((a + b).last() == b.last());
        match b.last() {
            Some(t) => {
                assert(only_texts(a + b) =~= only_texts(a) + only_texts(b));
            },
            None => {},
        }
    }
}

/// A handler that is registered has every message of the kinds that it claims, whoever had
/// them before; every other kind stays where it was.
pub proof fn law_handler_is_registered(
    fresh: ControlRegistry<Feature>,
    reg: &mut ControlRegistry<Feature>,
    h: Feature,
    kinds: Vec<String>,
    kind: Seq<char>,
)
    requires
        call_ensures(ControlRegistry::<Feature>::new, (), fresh),
        call_ensures(ControlRegistry::<Feature>::register, (reg, h), ()),
        call_ensures(<Feature as ControlHandler>::kinds, (&h,), kinds),
    ensures
        !fresh@.contains_key(kind),
        (exists|i: int| 0 <= i < kinds@.len() && (#[trigger] kinds@[i])@ == kind) ==> {
            &&& final(reg)@.contains_key(kind)
            &&& final(reg)@[kind] == h
        },
        (forall|i: int| 0 <= i < kinds@.len() ==> (#[trigger] kinds@[i])@ != kind) ==> {
            &&& final(reg)@.contains_key(kind) <==> old(reg)@.contains_key(kind)
            &&& old(reg)@.contains_key(kind) ==> final(reg)@[kind] == old(reg)@[kind]
        },
{
    let names = texts(kinds@);
    if exists|i: int| 0 <= i < kinds@.len() && (#[trigger] kinds@[i])@ == kind {
        let i = choose|i: int| 0 <= i < kinds@.len() && (#[trigger] kinds@[i])@ == kind;
        assert(names[i] == kind);
        assert(names.contains(kind));
    } else if names.contains(kind) {
        let i = names.index_of(kind);
        assert(kinds@[i]@ == kind);
    }
}

/// A map keeps what was put into it last under each key, until it is taken out.
pub proof fn law_map(
    fresh: NodeMap<u64>,
    m: &mut NodeMap<u64>,
    n: &mut NodeMap<u64>,
    key: String,
    value: u64,
    other: &str,
    found: bool,
    got: Option<&u64>,
    gone: Option<u64>,
)
    requires
        call_ensures(NodeMap::<u64>::new, (), fresh),
        call_ensures(NodeMap::<u64>::insert, (m, key, value), ()),
        call_ensures(NodeMap::<u64>::contains_key, (&*final(m), other), found),
        call_ensures(NodeMap::<u64>::get, (&*final(m), other), got),
        call_ensures(NodeMap::<u64>::remove, (n, other), gone),
    ensures
        fresh@ == Map::<Seq<char>, u64>::empty(),
        other@ == key@ ==> found && (got matches Some(v) && *v == value),
        other@ != key@ ==> (found <==> old(m)@.contains_key(other@)),
        other@ != key@ && found ==> (got matches Some(v) && *v == old(m)@[other@]),
        !found <==> got is None,
        !final(n)@.contains_key(other@),
        gone is Some <==> old(n)@.contains_key(other@),
        gone matches Some(v) ==> v == old(n)@[other@],
        forall|k: Seq<char>|
            k != other@ ==> (#[trigger] final(n)@.contains_key(k) <==> old(n)@.contains_key(k))
                && (old(n)@.contains_key(k) ==> final(n)@[k] == old(n)@[k]),
{
}

/// The peers that are shown are those that are known.
pub proof fn law_shown_peers(ctx: NetCtx, all: Vec<Peer>, told: Vec<Effect>, id: Seq<char>)
    requires
        ctx.peers.wf(),
        call_ensures(peer_list, (&ctx,), all),
        call_ensures(emit_peers, (&ctx,), told),
    ensures
        all@.len() == ctx@.peers.len(),
        ctx@.peers.contains_key(id) ==> exists|i: int|
            0 <= i < all@.len() && (#[trigger] all@[i])@ == ctx@.peers[id],
        tells_peers(effects(told@), ctx@.peers),
{
    crate::laws::peers::lemma_tells_peers(ctx);
    crate::discovery::law_peers_updated_lists_all(ctx);
    let shown = crate::events::peers_view(all@);
    assert(shown.len() == all@.len());
    if ctx@.peers.contains_key(id) {
        assert(shown.contains(ctx@.peers[id]));
        let i = shown.index_of(ctx@.peers[id]);
        assert(all@[i]@ == shown[i]);
    }
}

/// Effects are performed in the order in which they were added.
pub proof fn law_effect_lists(
    none: Vec<Effect>,
    e: Effect,
    one: Vec<Effect>,
    list: &mut Vec<Effect>,
    more: &mut Vec<Effect>,
    tail: Vec<Effect>,
)
    requires
        call_ensures(no_effects, (), none),
        call_ensures(one_effect, (e,), one),
        call_ensures(add_effect, (list, e), ()),
        call_ensures(add_effects, (more, tail), ()),
    ensures
        effects(none@).len() == 0,
        effects(one@) == seq![e@],
        effects(final(list)@) == effects(old(list)@).push(e@),
        effects(final(more)@) == effects(old(more)@) + effects(tail@),
{
}

/// The services are what they are called.
pub proof fn law_services(av: ServiceId, rc: ServiceId)
    requires
        call_ensures(<AvService as Service>::id, (&AvService,), av),
        call_ensures(<RemoteControlService as Service>::id, (&RemoteControlService,), rc),
    ensures
        av is Av,
        rc is RemoteControl,
{
}

/// A connection begins with no peer on it, and a WebRTC connection unregistered; the first
/// open channel registers it.
pub proof fn law_fresh_connections(
    conn: u64,
    node_id: String,
    s: WsSession,
    l: RtcLink,
    open: &mut RtcLink,
    ctx: &mut NetCtx,
    now: u64,
    told: Vec<Effect>,
)
    requires
        call_ensures(WsSession::new, (conn,), s),
        call_ensures(RtcLink::new, (node_id, conn), l),
        call_ensures(RtcLink::on_channel_open, (open, ctx, now), told),
    ensures
        s.conn_id == conn && s.peer_id is None,
        l.conn_id == conn && l.node_id == node_id && !l.registered,
        final(open).registered,
        final(open).node_id == old(open).node_id && final(open).conn_id == old(open).conn_id,
        old(open).registered ==> final(ctx)@ == old(ctx)@ && effects(told@).len() == 0,
        !old(open).registered ==> {
            let id = old(open).node_id@;
            &&& final(ctx)@.ws_conns == old(ctx)@.ws_conns.insert(id, old(open).conn_id)
            &&& final(ctx)@.p2p_conns.contains_key(id)
            &&& final(ctx)@.p2p_conns[id].last_seen == now
            &&& !old(ctx)@.p2p_conns.contains_key(id) ==> final(ctx)@.p2p_conns[id].kind
                == TransportKind::WebRtc && effects(told@) == seq![
                EffectView::Emit(
                    EventView::PeerConnected { node_id: id, transport: TransportKind::WebRtc },
                ),
            ]
        },
{
}

/// Bytes are numbers with the first of them worth most, whichever way they go.
pub proof fn law_numbers(
    a: u8,
    b: u8,
    c: u8,
    d: u8,
    two: u16,
    four: u32,
    x: u16,
    y: u32,
    out: &mut Vec<u8>,
    more: &mut Vec<u8>,
)
    requires
        call_ensures(read_be16, (a, b), two),
        call_ensures(read_be32, (a, b, c, d), four),
        call_ensures(push_be16, (out, x), ()),
        call_ensures(push_be32, (more, y), ()),
    ensures
        two == a * 256 + b,
        four == ((a * 256 + b) * 256 + c) * 256 + d,
        final(out)@.len() == old(out)@.len() + 2,
        final(out)@.take(old(out)@.len() as int) == old(out)@,
        crate::laws::wire::num16(final(out)@, old(out)@.len() as int) == x,
        final(more)@.len() == old(more)@.len() + 4,
        final(more)@.take(old(more)@.len() as int) == old(more)@,
        crate::laws::wire::num32(final(more)@, old(more)@.len() as int) == y,
{
    assert(final(out)@.take(old(out)@.len() as int) =~= old(out)@);
    assert(final(more)@.take(old(more)@.len() as int) =~= old(more)@);
}

/// Byte strings are compared, cut and put together as they are.
pub proof fn law_bytes(
    a: &[u8],
    b: &[u8],
    from: usize,
    to: usize,
    same: bool,
    starts: bool,
    part: Vec<u8>,
    out: &mut Vec<u8>,
)
    requires
        from <= to <= a@.len(),
        call_ensures(same_bytes, (a, b), same),
        call_ensures(starts_with, (a, b), starts),
        call_ensures(copy_range, (a, from, to), part),
        call_ensures(push_bytes, (out, a), ()),
    ensures
        same <==> a@ == b@,
        starts <==> b@.len() <= a@.len() && a@.take(b@.len() as int) == b@,
        part@.len() == to - from,
        forall|i: int| 0 <= i < to - from ==> #[trigger] part@[i] == a@[from + i],
        final(out)@ == old(out)@ + a@,
{
    if b@.len() <= a@.len() {
        assert(a@.take(b@.len() as int) =~= a@.subrange(0, b@.len() as int));
    }
}

/// Texts are compared, joined, copied and cut as they are.
pub proof fn law_texts(
    a: &str,
    b: &str,
    c: char,
    same: bool,
    both: String,
    cut: &str,
    list: Vec<String>,
    copy: Vec<String>,
    some: Option<String>,
    other: Option<String>,
)
    requires
        call_ensures(same_text, (a, b), same),
        call_ensures(join, (a, b), both),
        call_ensures(trim_end_char, (a, c), cut),
        call_ensures(clone_texts, (&list,), copy),
        call_ensures(clone_opt, (&some,), other),
    ensures
        same <==> a@ == b@,
        both@ == a@ + b@,
        cut@.len() <= a@.len(),
        cut@ == a@.take(cut@.len() as int),
        cut@.len() > 0 ==> cut@.last() != c,
        forall|i: int| cut@.len() <= i < a@.len() ==> #[trigger] a@[i] == c,
        copy@ == list@,
        some is Some <==> other is Some,
        some matches Some(s) ==> (other matches Some(t) && t@ == s@),
{
    lemma_cut(a@, c);
}

proof fn lemma_cut(s: Seq<char>, c: char)
    ensures
        ({
            let cut = crate::text::without_trailing(s, c);
            &&& cut.len() <= s.len()
            &&& cut == s.take(cut.len() as int)
            &&& cut.len() > 0 ==> cut.last() != c
            &&& forall|i: int| cut.len() <= i < s.len() ==> #[trigger] s[i] == c
        }),
    decreases s.len(),
{
    if s.len() > 0 && s.last() == c {
        lemma_cut(s.drop_last(), c);
        let cut = crate::text::without_trailing(s, c);
        assert(s.drop_last().take(cut.len() as int) =~= s.take(cut.len() as int));
        assert forall|i: int| cut.len() <= i < s.len() implies #[trigger] s[i] == c by {
            if i < s.len() - 1 {
                assert(s.drop_last()[i] == c);
            }
        }
    } else {
        assert(s.take(s.len() as int) =~= s);
    }
}

/// A text is found at the first place where it stands, from the given one on.
pub proof fn law_find(s: &str, pat: &str, from: usize, r: Option<usize>)
    requires
        call_ensures(find_from, (s, pat, from), r),
    ensures
        r matches Some(i) ==> from <= i && i + pat@.len() <= s@.len() && s@.subrange(
            i as int,
            i + pat@.len(),
        ) == pat@,
        r matches Some(i) ==> forall|m: int|
            from <= m < i ==> #[trigger] s@.subrange(m, m + pat@.len()) != pat@ || m + pat@.len()
                > s@.len(),
        r is None ==> forall|m: int|
            from <= m && m + pat@.len() <= s@.len() ==> #[trigger] s@.subrange(m, m + pat@.len())
                != pat@,
{
    crate::text::lemma_found(s@, pat@, from as int);
    match r {
        Some(i) => {
            assert forall|m: int| from <= m < i implies #[trigger] s@.subrange(m, m + pat@.len())
                != pat@ || m + pat@.len() > s@.len() by {
                assert(!stands_at(s@, pat@, m));
            }
        },
        None => {
            assert forall|m: int| from <= m && m + pat@.len() <= s@.len() implies #[trigger] s@.subrange(
                m,
                m + pat@.len(),
            ) != pat@ by {
                assert(!stands_at(s@, pat@, m));
            }
        },
    }
}

/// Something is due where it was never done, or where its period has passed since.
pub proof fn law_due(last: Option<u64>, period: u64, now: u64, ms: u64, r: bool, then: u64)
    requires
        call_ensures(due, (last, period, now), r),
        call_ensures(after, (now, ms), then),
    ensures
        last is None ==> r,
        last matches Some(t) ==> (r <==> now >= t + period),
        now + ms <= u64::MAX ==> then == now + ms,
        now + ms > u64::MAX ==> then == u64::MAX,
{
}

/// A copy is what it was made from.
pub proof fn law_copies(
    id: Identity,
    p: Peer,
    env: Envelope,
    m: IncomingMessage,
    c: Candidate,
    s: Signal,
    ev: CoreEvent,
    id2: Identity,
    p2: Peer,
    env2: Envelope,
    m2: IncomingMessage,
    c2: Candidate,
    s2: Signal,
    ev2: CoreEvent,
)
    requires
        call_ensures(<Identity as Clone>::clone, (&id,), id2),
        call_ensures(<Peer as Clone>::clone, (&p,), p2),
        call_ensures(<Envelope as Clone>::clone, (&env,), env2),
        call_ensures(<IncomingMessage as Clone>::clone, (&m,), m2),
        call_ensures(<Candidate as Clone>::clone, (&c,), c2),
        call_ensures(<Signal as Clone>::clone, (&s,), s2),
        call_ensures(<CoreEvent as Clone>::clone, (&ev,), ev2),
    ensures
        id2@ == id@,
        p2@ == p@,
        env2@ == env@,
        m2@ == m@,
        c2@ == c@,
        s2@ == s@,
        ev2@ == ev@,
{
}

} // verus!
