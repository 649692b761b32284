//! Remote control. Screen frames ride a datagram channel; input events ride a
//! reliable channel.

use vstd::prelude::*;

use crate::service::{ChannelId, Service, ServiceId};

verus! {

pub struct RemoteControlService;

impl Service for RemoteControlService {
    fn id(&self) -> (r: ServiceId)
        ensures
            r == ServiceId::RemoteControl,
    {
        ServiceId::RemoteControl
    }

    /// Input and screen frames are accepted and dropped: nothing applies them.
    fn on_frame(&self, _node_id: &str, _chan: ChannelId, _data: &[u8]) {
    }
}

} // verus!
