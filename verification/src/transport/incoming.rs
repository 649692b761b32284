//! The pipeline that every received envelope goes through, whatever it came over.

use vstd::prelude::*;

use super::send::DispatchView;
use crate::capabilities::Capabilities;
use crate::crypto::{decrypt, opened_envelope, opt_bytes};
use crate::engine::{NetCtx, NetView};
use crate::events::{effects, no_effects, one_effect, CoreEvent, Effect, EffectView, EventView};
use crate::features::{dispatched, ControlHandler, ControlRegistry};
use crate::model::{Envelope, EnvelopeView, IncomingMessage, IncomingView, Plaintext};

verus! {

/// What an envelope holds under this device's key; `None` where there is no key or
/// it is the wrong one.
pub open spec fn opened_with(net: NetView, env: EnvelopeView) -> Option<Seq<u8>> {
    match net.key {
        Some(key) => opened_envelope(key, env),
        None => None,
    }
}

/// Decrypt a received envelope.
pub fn open_incoming(ctx: &NetCtx, env: &Envelope) -> (r: Option<Vec<u8>>)
    ensures
        opt_bytes(r) == opened_with(ctx@, env@),
{
    match &ctx.key {
        Some(key) => decrypt(key, env),
        None => None,
    }
}

/// What was found in a received envelope.
pub enum Opened {
    /// It could not be decrypted.
    Locked,
    /// It was decrypted, but holds no message.
    Garbled,
    /// It was decrypted and holds this message.
    Message(Plaintext),
}

/// What was found: nothing where the envelope could not be decrypted, else the message
/// that its plaintext was parsed into, where it is one.
pub open spec fn found(decrypted: Option<Seq<u8>>, parsed: Option<Plaintext>) -> Opened {
    match (decrypted, parsed) {
        (None, _) => Opened::Locked,
        (Some(_), None) => Opened::Garbled,
        (Some(_), Some(m)) => Opened::Message(m),
    }
}

/// Say what was found in an envelope, from what `open_incoming` gave and from the message
/// that this was parsed into, if it was one.
pub fn classify(decrypted: &Option<Vec<u8>>, parsed: Option<Plaintext>) -> (r: Opened)
    ensures
        r == found(opt_bytes(*decrypted), parsed),
{
    match decrypted {
        None => Opened::Locked,
        Some(_) => match parsed {
            None => Opened::Garbled,
            Some(m) => Opened::Message(m),
        },
    }
}

/// The message that stands in for one that could not be decrypted.
pub open spec fn locked_message(ip: Seq<char>, protocol: Seq<char>, now: u64) -> IncomingView {
    IncomingView {
        from: "(unknown)"@,
        ip,
        protocol,
        text: "🔒 message could not be decrypted (wrong encryption key)"@,
        ts: now,
        ok: false,
    }
}

/// The UI message of what was found: undecryptable messages are surfaced, not
/// silently dropped.
pub fn envelope_to_message(msg: Option<Plaintext>, ip: String, protocol: &str, now: u64) -> (r:
    IncomingMessage)
    ensures
        r@ == match msg {
            Some(m) => IncomingView {
                from: m.from@,
                ip: ip@,
                protocol: protocol@,
                text: m.text@,
                ts: now,
                ok: true,
            },
            None => locked_message(ip@, protocol@, now),
        },
{
    match msg {
        Some(m) => IncomingMessage {
            from: m.from,
            ip,
            protocol: protocol.to_owned(),
            text: m.text,
            ts: now,
            ok: true,
        },
        None => IncomingMessage {
            from: "(unknown)".to_owned(),
            ip,
            protocol: protocol.to_owned(),
            text: "🔒 message could not be decrypted (wrong encryption key)".to_owned(),
            ts: now,
            ok: false,
        },
    }
}

/// The state and the effects once a received envelope has been handled.
pub open spec fn received<H: ControlHandler>(
    handlers: Map<Seq<char>, H>,
    net: NetView,
    caps: Capabilities,
    now: u64,
    opened: Opened,
    ip: Seq<char>,
    protocol: Seq<char>,
) -> (NetView, Seq<EffectView>) {
    match opened {
        Opened::Locked => (
            net,
            seq![EffectView::Emit(EventView::MessageReceived(locked_message(ip, protocol, now)))],
        ),
        Opened::Garbled => (net, Seq::empty()),
        Opened::Message(m) => match dispatched(
            handlers,
            net,
            caps,
            now,
            (m.from@, ip, protocol),
            m.text@,
        ) {
            Some(outcome) => outcome,
            None => (
                net,
                seq![
                    EffectView::Emit(
                        EventView::MessageReceived(
                            IncomingView {
                                from: m.from@,
                                ip,
                                protocol,
                                text: m.text@,
                                ts: now,
                                ok: true,
                            },
                        ),
                    ),
                ],
            ),
        },
    }
}

/// Dispatch what was found in a received envelope. Control messages are handled
/// in-band (never shown as chat); everything else becomes a normal
/// `MessageReceived`.
pub fn handle_incoming<H: ControlHandler>(
    ctx: &mut NetCtx,
    control: &ControlRegistry<H>,
    caps: Capabilities,
    now: u64,
    opened: Opened,
    ip: String,
    protocol: &str,
) -> (r: Vec<Effect>)
    ensures
        final(ctx)@ == received(control@, old(ctx)@, caps, now, opened, ip@, protocol@).0,
        effects(r@) == received(control@, old(ctx)@, caps, now, opened, ip@, protocol@).1,
{
    match opened {
        Opened::Locked => one_effect(
            Effect::Emit(
                CoreEvent::MessageReceived(envelope_to_message(None, ip, protocol, now)),
            ),
        ),
        Opened::Garbled => no_effects(),
        Opened::Message(msg) => {
            match control.dispatch(
                ctx,
                caps,
                now,
                msg.from.as_str(),
                ip.as_str(),
                protocol,
                msg.text.as_str(),
            ) {
                Some(out) => out,
                None => one_effect(
                    Effect::Emit(
                        CoreEvent::MessageReceived(
                            envelope_to_message(Some(msg), ip, protocol, now),
                        ),
                    ),
                ),
            }
        },
    }
}

/// No received envelope is dropped in silence, unless it was decrypted and turned
/// out to hold no message at all: it is shown, or a feature has handled it.
pub proof fn law_nothing_is_lost<H: ControlHandler>(
    handlers: Map<Seq<char>, H>,
    net: NetView,
    caps: Capabilities,
    now: u64,
    opened: Opened,
    ip: Seq<char>,
    protocol: Seq<char>,
)
    requires
        !(opened is Garbled),
    ensures
        ({
            let shown = received(handlers, net, caps, now, opened, ip, protocol);
            ||| shown.1.len() == 1 && (shown.1[0] matches EffectView::Emit(e)
                && e is MessageReceived) && shown.0 == net
            ||| opened matches Opened::Message(m) && dispatched(
                handlers,
                net,
                caps,
                now,
                (m.from@, ip, protocol),
                m.text@,
            ) == Some(shown)
        }),
{
}

/// An envelope that this device cannot decrypt, for want of a key or under the wrong one,
/// is shown as such and changes nothing.
pub proof fn law_undecryptable_is_shown<H: ControlHandler>(
    handlers: Map<Seq<char>, H>,
    net: NetView,
    caps: Capabilities,
    now: u64,
    env: EnvelopeView,
    parsed: Option<Plaintext>,
    ip: Seq<char>,
    protocol: Seq<char>,
)
    requires
        opened_with(net, env) is None,
    ensures
        received(handlers, net, caps, now, found(opened_with(net, env), parsed), ip, protocol) == (
            net,
            seq![EffectView::Emit(EventView::MessageReceived(locked_message(ip, protocol, now)))],
        ),
{
}

/// What one device sends, every device with the same key receives: the plaintext that
/// went into the envelope comes out of it.
pub proof fn law_sent_is_received(
    sender: NetView,
    receiver: NetView,
    sent: DispatchView,
    plaintext: Seq<u8>,
)
    requires
        sender.key matches Some(key) && opened_envelope(key, sent.envelope()) == Some(plaintext),
        receiver.key == sender.key,
    ensures
        opened_with(receiver, sent.envelope()) == Some(plaintext),
{
}

} // verus!
