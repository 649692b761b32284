//! Channel multiplexing over a v2 connection. A connection carries many logical
//! channels (reliable over WS/TCP, datagram over UDP); the mux assigns channel ids.

use vstd::prelude::*;

use crate::service::Reliability;

verus! {

/// Allocates locally-initiated channel ids.
pub struct ChannelAllocator {
    next: u16,
}

/// The id that the `n`-th allocation (counted from 0) of a fresh allocator gives:
/// ids start at 1 and wrap round after 2^16.
pub open spec fn channel_id(n: nat) -> u16 {
    ((n + 1) % 0x1_0000) as u16
}

impl View for ChannelAllocator {
    type V = u16;

    /// The id that comes next.
    closed spec fn view(&self) -> u16 {
        self.next
    }
}

impl ChannelAllocator {
    pub fn new() -> (r: Self)
        ensures
            r@ == channel_id(0),
    {
        ChannelAllocator { next: 1 }
    }

    pub fn allocate(&mut self, _reliability: Reliability) -> (r: u16)
        ensures
            r == old(self)@,
            final(self)@ == if old(self)@ == 0xffff {
                0
            } else {
                old(self)@ + 1
            },
    {
        let id: u16 = self.next;
        self.next = if id == 0xffff {
            0
        } else {
            id + 1
        };
        id
    }
}

impl Default for ChannelAllocator {
    fn default() -> (r: Self)
        ensures
            r@ == channel_id(0),
    {
        Self::new()
    }
}

/// The id after the `n`-th is the `n + 1`-th, so a fresh allocator hands out
/// `channel_id(0)`, `channel_id(1)` and so on.
pub proof fn law_channel_ids_follow(n: nat)
    ensures
        channel_id(n + 1) == if channel_id(n) == 0xffff {
            0
        } else {
            channel_id(n) + 1
        },
{
}

/// Any 2^16 allocations in a row give different ids.
pub proof fn law_channel_ids_distinct(m: nat, n: nat)
    requires
        m < n < m + 0x1_0000,
    ensures
        channel_id(m) != channel_id(n),
{
}

} // verus!
