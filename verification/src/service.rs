//! Service framework scaffolding.
//!
//! Every shareable feature is a `Service` plugged into a peer connection. A service
//! asks the connection for a channel of the reliability class it needs and never
//! touches transports directly.

use vstd::prelude::*;

verus! {

/// Stable on-the-wire identifier for a service (one byte in the v2 frame header).
#[derive(Clone, Copy, Debug, PartialEq, Eq, Structural)]
pub enum ServiceId {
    Messaging,
    Clipboard,
    Notification,
    CallHistory,
    Av,
    RemoteControl,
}

impl ServiceId {
    pub open spec fn code_spec(self) -> u8 {
        match self {
            ServiceId::Messaging => 0,
            ServiceId::Clipboard => 1,
            ServiceId::Notification => 2,
            ServiceId::CallHistory => 3,
            ServiceId::Av => 4,
            ServiceId::RemoteControl => 5,
        }
    }

    /// The byte that names this service in a frame header.
    pub fn code(self) -> (r: u8)
        ensures
            r == self.code_spec(),
    {
        match self {
            ServiceId::Messaging => 0,
            ServiceId::Clipboard => 1,
            ServiceId::Notification => 2,
            ServiceId::CallHistory => 3,
            ServiceId::Av => 4,
            ServiceId::RemoteControl => 5,
        }
    }
}

/// Channel delivery class. Reliable rides WS/TCP; datagram rides UDP and is
/// drop-tolerant (audio/video frames).
#[derive(Clone, Copy, Debug, PartialEq, Eq, Structural)]
pub enum Reliability {
    Reliable,
    Datagram,
}

/// Opaque per-connection channel handle (assigned by the mux).
pub type ChannelId = u16;

/// A feature plugged into the engine. Implementors handle their own framed
/// payloads and may open channels back to the peer.
pub trait Service: Send + Sync {
    fn id(&self) -> ServiceId;

    /// Handle a decrypted payload addressed to this service on `chan`.
    fn on_frame(&self, node_id: &str, chan: ChannelId, data: &[u8]);
}

/// No two services share a code.
pub proof fn law_service_codes_distinct(a: ServiceId, b: ServiceId)
    ensures
        a.code_spec() == b.code_spec() ==> a == b,
{
}

} // verus!
