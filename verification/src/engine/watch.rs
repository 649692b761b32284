//! What a device does by the clock: it watches its clipboard and its address, and
//! keeps its links alive.

use vstd::prelude::*;

use super::{NetCtx, NetView};
use crate::events::{
    add_effect, add_effects, effects, no_effects, outgoing, Effect, EffectView, EventView,
    Outgoing,
};
use crate::json::{json_fields, reads_back};
use crate::messages::{
    bare_message, bare_text, clipboard_fields, clipboard_message, clipboard_text,
};
use crate::model::IdentityView;
use crate::text::same_text;
use crate::transport::send::{broadcast_control, control_to, controls_to, send_control_to};
use crate::transport::{drop_live, live_snapshot, P2pConn, TransportKind};

verus! {

/// How often the clipboard is looked at, in milliseconds.
pub const CLIPBOARD_EVERY_MS: u64 = 1000;

/// How often the device's address is looked at, in seconds.
pub const NETWORK_EVERY_SECS: u64 = 5;

/// How often the links are looked after, in seconds.
pub const HEARTBEAT_EVERY_SECS: u64 = 5;

/// How long a link may be silent, in seconds.
pub const TIMEOUT_SECS: u64 = 15;

/// Whether what is on the clipboard is news to send: auto-sync is on, and it is
/// neither empty nor the value last seen.
pub open spec fn clipboard_news(net: NetView, current: Option<Seq<char>>) -> bool {
    net.clip_active && (current matches Some(c) && c.len() > 0 && c != net.clip_last)
}

/// Look at the clipboard, and send a changed value to all peers.
pub fn clipboard_tick(ctx: &mut NetCtx, current: Option<String>) -> (r: Vec<Outgoing>)
    ensures
        ({
            let news = clipboard_news(old(ctx)@, crate::text::opt_text(current));
            &&& news ==> final(ctx)@ == (NetView { clip_last: current->0@, ..old(ctx)@ })
                && outgoing(r@) == controls_to(
                final(ctx)@,
                old(ctx).peers.keys_spec(),
                clipboard_text("clipboard"@, old(ctx)@.identity.node_id, current->0@),
            ) && reads_back(
                json_fields(
                    clipboard_text("clipboard"@, old(ctx)@.identity.node_id, current->0@),
                ),
                clipboard_fields("clipboard"@, old(ctx)@.identity.node_id, current->0@),
            )
            &&& !news ==> final(ctx)@ == old(ctx)@ && r@.len() == 0
        }),
{
    if !ctx.clip_active {
        return Vec::new();
    }
    match current {
        None => Vec::new(),
        Some(cur) => {
            if cur.as_str().unicode_len() == 0 || same_text(
                cur.as_str(),
                ctx.clip_last.as_str(),
            ) {
                return Vec::new();
            }
            let msg = clipboard_message(
                "clipboard",
                ctx.identity.node_id.as_str(),
                cur.as_str(),
            );
            ctx.clip_last = cur;
            broadcast_control(ctx, msg.as_str())
        },
    }
}

/// A value that was synced from a peer, or sent once, is not sent again while it stays
/// on the clipboard: two devices in active mode do not echo each other.
pub proof fn law_no_echo(net: NetView, content: Seq<char>)
    ensures
        !clipboard_news(NetView { clip_last: content, ..net }, Some(content)),
{
}

/// The state once the device's address has been looked at.
pub open spec fn readdressed(net: NetView, current: Seq<char>) -> NetView {
    if current == "0.0.0.0"@ {
        net
    } else {
        NetView { identity: IdentityView { ip: current, ..net.identity }, ..net }
    }
}

/// Look at the device's address, and advertise a changed one. "0.0.0.0" stands for no
/// address, and changes nothing.
pub fn network_tick(ctx: &mut NetCtx, current: String)
    ensures
        final(ctx)@ == readdressed(old(ctx)@, current@),
{
    if !same_text(ctx.identity.ip.as_str(), current.as_str()) && !same_text(
        current.as_str(),
        "0.0.0.0",
    ) {
        ctx.identity.ip = current;
    }
}

/// Whether a link has been silent for too long. WS is event-driven, and never stale.
pub open spec fn is_stale(c: P2pConn, now: u64) -> bool {
    c.kind != TransportKind::Ws && now - c.last_seen > TIMEOUT_SECS
}

/// The links that are not stale.
pub open spec fn fresh_links(conns: Map<Seq<char>, P2pConn>, now: u64) -> Map<
    Seq<char>,
    P2pConn,
> {
    Map::new(
        |id: Seq<char>| conns.contains_key(id) && !is_stale(conns[id], now),
        |id: Seq<char>| conns[id],
    )
}

/// What the heartbeat does for one link: nothing for WS, drop a stale one, ping any
/// other.
pub open spec fn beat(net: NetView, id: Seq<char>, now: u64) -> Option<EffectView> {
    let c = net.p2p_conns[id];
    if c.kind == TransportKind::Ws {
        None
    } else if is_stale(c, now) {
        Some(EffectView::Emit(EventView::PeerDisconnected { node_id: id }))
    } else {
        Some(
            EffectView::Send(
                control_to(net, id, bare_text("p2p_ping"@, net.identity.node_id)),
            ),
        )
    }
}

/// What the heartbeat does for the first `n` of some links, in order.
pub open spec fn beats(net: NetView, ids: Seq<Seq<char>>, now: u64, n: nat) -> Seq<EffectView>
    decreases n,
{
    if n == 0 {
        Seq::empty()
    } else {
        let before = beats(net, ids, now, (n - 1) as nat);
        match beat(net, ids[n - 1], now) {
            Some(e) => before.push(e),
            None => before,
        }
    }
}

/// Keepalive pings for connectionless links (UDP/punch/webrtc), and eviction of stale
/// ones.
pub fn heartbeat_tick(ctx: &mut NetCtx, now: u64) -> (r: Vec<Effect>)
    ensures
        final(ctx)@ == (NetView {
            p2p_conns: fresh_links(old(ctx)@.p2p_conns, now),
            ..old(ctx)@
        }),
        effects(r@) == beats(
            old(ctx)@,
            old(ctx).p2p_conns.keys_spec(),
            now,
            old(ctx).p2p_conns.keys_spec().len(),
        ),
{
    proof {
        use_type_invariant(&ctx.p2p_conns);
        ctx.p2p_conns.law_lists_the_map();
    }
    let ghost before = ctx@;
    let ghost ids = ctx.p2p_conns.keys_spec();
    let ping = bare_message("p2p_ping", ctx.identity.node_id.as_str());
    let links = live_snapshot(ctx);
    let mut out = no_effects();
    for i in 0..links.len()
        invariant
            before == old(ctx)@,
            links@.len() == ids.len(),
            ids.no_duplicates(),
            ping@ == bare_text("p2p_ping"@, before.identity.node_id),
            forall|j: int|
                0 <= j < ids.len() ==> {
                    &&& (#[trigger] links@[j]).0@ == ids[j]
                    &&& links@[j].1 == before.p2p_conns[ids[j]].kind
                    &&& links@[j].2 == before.p2p_conns[ids[j]].last_seen
                },
            forall|j: int| 0 <= j < ids.len() ==> before.p2p_conns.contains_key(#[trigger] ids[j]),
            ctx@ == (NetView { p2p_conns: ctx@.p2p_conns, ..before }),
            forall|id: Seq<char>| #[trigger]
                ctx@.p2p_conns.contains_key(id) <==> before.p2p_conns.contains_key(id) && !(
                ids.take(i as int).contains(id) && is_stale(before.p2p_conns[id], now)),
            forall|id: Seq<char>|
                #![trigger ctx@.p2p_conns[id]]
                ctx@.p2p_conns.contains_key(id) ==> ctx@.p2p_conns[id] == before.p2p_conns[id],
            effects(out@) == beats(before, ids, now, i as nat),
    {
        let link = &links[i];
        let ghost id = ids[i as int];
        assert(links@[i as int].0@ == id);
        assert(before.p2p_conns.contains_key(ids[i as int]));
        proof {
            let seen = ids.take(i as int);
            let more = ids.take(i + 1);
            assert(more =~= seen.push(id));
            assert(!seen.contains(id)) by {
                if seen.contains(id) {
                    let j = seen.index_of(id);
                    assert(ids[j] == id);
                }
            }
            assert forall|k: Seq<char>| more.contains(k) <==> seen.contains(k) || k == id by {
                if seen.contains(k) {
                    let j = seen.index_of(k);
                    assert(more[j] == k);
                }
                assert(more[i as int] == id);
            }
            assert(ctx@.p2p_conns.contains_key(id));
        }
        if link.1 != TransportKind::Ws {
            let silent = now > link.2 && now - link.2 > TIMEOUT_SECS;
            if silent {
                let down = drop_live(ctx, link.0.as_str());
                add_effects(&mut out, down);
                assert(effects(out@) =~= beats(before, ids, now, i as nat).push(
                    EffectView::Emit(EventView::PeerDisconnected { node_id: id }),
                ));
            } else {
                add_effect(
                    &mut out,
                    Effect::Send(send_control_to(ctx, link.0.as_str(), ping.as_str())),
                );
            }
        }
    }
    proof {
        assert(ids.take(links@.len() as int) =~= ids);
        assert forall|id: Seq<char>| before.p2p_conns.contains_key(id) implies ids.contains(id) by {
            assert(ids.to_set().contains(id));
        }
        assert(ctx@.p2p_conns =~= fresh_links(before.p2p_conns, now));
    }
    out
}

/// A heartbeat keeps every link that was heard of within the timeout and every
/// WebSocket, drops every other link, and says of each dropped link that it is gone.
pub proof fn law_heartbeat(net: NetView, ids: Seq<Seq<char>>, now: u64, id: Seq<char>)
    requires
        net.p2p_conns.contains_key(id),
        ids.contains(id),
    ensures
        ({
            let kept = fresh_links(net.p2p_conns, now);
            let c = net.p2p_conns[id];
            let gone = EffectView::Emit(EventView::PeerDisconnected { node_id: id });
            &&& c.kind == TransportKind::Ws || now <= c.last_seen + TIMEOUT_SECS
                <==> kept.contains_key(id)
            &&& kept.contains_key(id) ==> kept[id] == c
            &&& beats(net, ids, now, ids.len()).contains(gone) <==> !kept.contains_key(id)
        }),
{
    lemma_beats(net, ids, now, ids.len(), id);
    assert(ids.take(ids.len() as int) =~= ids);
}

proof fn lemma_beats(net: NetView, ids: Seq<Seq<char>>, now: u64, n: nat, id: Seq<char>)
    requires
        n <= ids.len(),
    ensures
        beats(net, ids, now, n).contains(
            EffectView::Emit(EventView::PeerDisconnected { node_id: id }),
        ) <==> ids.take(n as int).contains(id) && is_stale(net.p2p_conns[id], now),
    decreases n,
{
    let gone = EffectView::Emit(EventView::PeerDisconnected { node_id: id });
    if n > 0 {
        lemma_beats(net, ids, now, (n - 1) as nat, id);
        let before = beats(net, ids, now, (n - 1) as nat);
        let after = beats(net, ids, now, n);
        let last = ids[n - 1];
        assert(ids.take(n as int) =~= ids.take(n - 1).push(last));
        if ids.take(n - 1).contains(id) {
            let k = ids.take(n - 1).index_of(id);
            assert(ids.take(n as int)[k] == id);
        }
        assert(ids.take(n as int)[n - 1] == last);
        if ids.take(n as int).contains(id) && id != last {
            let k = ids.take(n as int).index_of(id);
            assert(ids.take(n - 1)[k] == id);
        }
        if before.contains(gone) {
            let k = before.index_of(gone);
            assert(after[k] == gone);
        }
        match beat(net, last, now) {
            Some(e) => {
                assert(after[after.len() - 1] == e);
                if after.contains(gone) && e != gone {
                    let k = after.index_of(gone);
                    assert(before[k] == gone);
                }
            },
            None => {},
        }
    }
}

} // verus!
