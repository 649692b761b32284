//! UDP hole-punch primitive: simultaneous-open between two peers.
//!
//! Both sides must start punching at roughly the same time (coordinated via a
//! relative `start_in_ms` in the `PunchOffer`/`PunchAnswer` signals). Each side
//! blasts a small magic probe to every candidate while listening on the SAME
//! socket; the first peer probe received identifies the working 5-tuple, which is
//! then promoted to the data channel.
//!
//! Times are in milliseconds on a clock that never goes back.

use vstd::prelude::*;

use crate::wire::be::starts_with;

verus! {

/// How often the probes are repeated.
pub const PROBE_EVERY_MS: u64 = 50;

/// The moment `ms` after `now`, or the last moment there is.
pub open spec fn after_spec(now: u64, ms: u64) -> u64 {
    if now + ms > u64::MAX {
        u64::MAX
    } else {
        (now + ms) as u64
    }
}

/// The moment `ms` after `now`, or the last moment there is.
pub fn after(now: u64, ms: u64) -> (r: u64)
    ensures
        r == after_spec(now, ms),
{
    if now > u64::MAX - ms {
        u64::MAX
    } else {
        now + ms
    }
}

/// Whether something that was last done at `last` and is repeated every `period` is
/// due at `now`; what was never done is always due.
pub open spec fn is_due(last: Option<u64>, period: u64, now: u64) -> bool {
    match last {
        Some(t) => now - t >= period,
        None => true,
    }
}

/// Whether something that was last done at `last` and is repeated every `period` is
/// due at `now`.
pub fn due(last: Option<u64>, period: u64, now: u64) -> (r: bool)
    ensures
        r == is_due(last, period, now),
{
    match last {
        Some(t) => now >= t && now - t >= period,
        None => true,
    }
}

/// What to do next while punching.
#[derive(Clone, Copy, Debug, PartialEq, Eq)]
pub enum PunchTick {
    /// Nobody answered in time.
    Expired,
    /// Send the probe to every candidate if `probe`, then wait for a datagram.
    Wait { probe: bool },
}

/// A hole punch in progress.
pub struct HolePunch {
    pub deadline: u64,
    pub last_send: Option<u64>,
}

impl HolePunch {
    /// Begin to punch at `now`, for `total` milliseconds.
    pub fn new(now: u64, total: u64) -> (r: HolePunch)
        ensures
            r == (HolePunch { deadline: after_spec(now, total), last_send: None }),
    {
        HolePunch { deadline: after(now, total), last_send: None }
    }

    /// Go on at `now`.
    pub fn tick(&mut self, now: u64) -> (r: PunchTick)
        ensures
            final(self).deadline == old(self).deadline,
            r == if now >= old(self).deadline {
                PunchTick::Expired
            } else {
                PunchTick::Wait { probe: is_due(old(self).last_send, PROBE_EVERY_MS, now) }
            },
            final(self).last_send == if r == (PunchTick::Wait { probe: true }) {
                Some(now)
            } else {
                old(self).last_send
            },
    {
        if now >= self.deadline {
            return PunchTick::Expired;
        }
        if due(self.last_send, PROBE_EVERY_MS, now) {
            self.last_send = Some(now);
            PunchTick::Wait { probe: true }
        } else {
            PunchTick::Wait { probe: false }
        }
    }
}

/// Whether a received datagram is a peer's probe. Where it came from is then the
/// path to bind, and its sender gets the probe back, so that it confirms the path
/// too.
pub fn is_probe(pkt: &[u8], magic: &[u8]) -> (r: bool)
    ensures
        r == magic@.is_prefix_of(pkt@),
{
    starts_with(pkt, magic)
}

/// A probe goes out at once, and then again as soon as `PROBE_EVERY_MS` have passed
/// and not before.
pub proof fn law_probes_are_paced(sent: u64, now: u64)
    ensures
        is_due(None, PROBE_EVERY_MS, now),
        now < sent + PROBE_EVERY_MS ==> !is_due(Some(sent), PROBE_EVERY_MS, now),
        now >= sent + PROBE_EVERY_MS ==> is_due(Some(sent), PROBE_EVERY_MS, now),
{
}

} // verus!
