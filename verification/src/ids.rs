//! Fresh identifiers.

use vstd::prelude::*;

verus! {

/// Whether a character is a lower-case hexadecimal digit.
pub open spec fn is_hex_digit(c: char) -> bool {
    '0' <= c <= '9' || 'a' <= c <= 'f'
}

/// Whether a text has the form of a version 4 UUID in lower case.
pub open spec fn is_uuid_v4(s: Seq<char>) -> bool {
    &&& s.len() == 36
    &&& s[8] == '-' && s[13] == '-' && s[18] == '-' && s[23] == '-'
    &&& s[14] == '4'
    &&& s[19] == '8' || s[19] == '9' || s[19] == 'a' || s[19] == 'b'
    &&& forall|i: int|
        0 <= i < 36 && i != 8 && i != 13 && i != 18 && i != 23 ==> is_hex_digit(#[trigger] s[i])
}

/// `uuid::Uuid::new_v4().to_string()`: random, so only its form is claimed.
#[verifier::external_body]
pub(crate) fn fresh_uuid() -> (r: String)
    ensures
        is_uuid_v4(r@),
{
    uuid::Uuid::new_v4().to_string()
}

/// The id of the `n`th link of a kind whose ids begin at `base`.
pub open spec fn link_id(base: u64, n: nat) -> u64
    decreases n,
{
    if n == 0 {
        base
    } else {
        link_id(base, (n - 1) as nat).wrapping_add(1)
    }
}

/// Where the ids of the WebSocket links begin.
pub const WS_BASE: u64 = 1;

/// Where the ids of the punched links begin.
pub const PUNCH_BASE: u64 = 1_000_000;

/// Where the ids of the WebRTC links begin.
pub const RTC_BASE: u64 = 2_000_000;

/// Connection ids. Each kind of link has a range of its own, so that a link can tell
/// its own slot from that of any other.
pub struct ConnIds {
    pub ws: u64,
    pub punch: u64,
    pub rtc: u64,
}

impl ConnIds {
    pub fn new() -> (r: ConnIds)
        ensures
            r == (ConnIds { ws: WS_BASE, punch: PUNCH_BASE, rtc: RTC_BASE }),
    {
        ConnIds { ws: WS_BASE, punch: PUNCH_BASE, rtc: RTC_BASE }
    }

    pub fn next_ws(&mut self) -> (r: u64)
        ensures
            r == old(self).ws,
            *final(self) == (ConnIds { ws: old(self).ws.wrapping_add(1), ..*old(self) }),
    {
        let id: u64 = self.ws;
        self.ws = id.wrapping_add(1);
        id
    }

    pub fn next_punch(&mut self) -> (r: u64)
        ensures
            r == old(self).punch,
            *final(self) == (ConnIds { punch: old(self).punch.wrapping_add(1), ..*old(self) }),
    {
        let id: u64 = self.punch;
        self.punch = id.wrapping_add(1);
        id
    }

    pub fn next_rtc(&mut self) -> (r: u64)
        ensures
            r == old(self).rtc,
            *final(self) == (ConnIds { rtc: old(self).rtc.wrapping_add(1), ..*old(self) }),
    {
        let id: u64 = self.rtc;
        self.rtc = id.wrapping_add(1);
        id
    }
}

proof fn lemma_link_id(base: u64, n: nat)
    requires
        base + n <= u64::MAX,
    ensures
        link_id(base, n) == base + n,
    decreases n,
{
    if n > 0 {
        lemma_link_id(base, (n - 1) as nat);
    }
}

/// The first 999 999 WebSocket links, the first 1 000 000 punched links and the
/// first 2^64 - 2 000 000 WebRTC links all have ids of their own.
pub proof fn law_link_ids_distinct(
    base_a: u64,
    base_b: u64,
    a: nat,
    b: nat,
)
    requires
        base_a == WS_BASE || base_a == PUNCH_BASE || base_a == RTC_BASE,
        base_b == WS_BASE || base_b == PUNCH_BASE || base_b == RTC_BASE,
        base_a == WS_BASE ==> a < 999_999,
        base_b == WS_BASE ==> b < 999_999,
        base_a == PUNCH_BASE ==> a < 1_000_000,
        base_b == PUNCH_BASE ==> b < 1_000_000,
        base_a + a <= u64::MAX,
        base_b + b <= u64::MAX,
        base_a != base_b || a != b,
    ensures
        link_id(base_a, a) != link_id(base_b, b),
{
    lemma_link_id(base_a, a);
    lemma_link_id(base_b, b);
}

} // verus!
