//! What the host platform tells the core about its network interfaces.

use vstd::prelude::*;

use crate::net::Ipv4;

verus! {

/// How to choose the multicast interface(s) and the /24 sweep base for LAN
/// discovery.
#[derive(Clone)]
pub enum IfaceMode {
    /// Desktop: every non-loopback IPv4 interface.
    All { v4_addrs: Vec<Ipv4> },
    /// Android: pinned to one Wi-Fi interface, because the default route is cellular.
    Single(Ipv4),
}

impl IfaceMode {
    /// The interface addresses.
    pub open spec fn addrs(self) -> Seq<Ipv4> {
        match self {
            IfaceMode::All { v4_addrs } => v4_addrs@,
            IfaceMode::Single(ip) => seq![ip],
        }
    }
}

} // verus!
