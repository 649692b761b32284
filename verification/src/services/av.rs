//! Audio/video calls. Media frames ride a datagram channel; call setup rides a
//! reliable channel and the signaling layer.

use vstd::prelude::*;

use crate::service::{ChannelId, Service, ServiceId};

verus! {

pub struct AvService;

impl Service for AvService {
    fn id(&self) -> (r: ServiceId)
        ensures
            r == ServiceId::Av,
    {
        ServiceId::Av
    }

    /// Media frames are accepted and dropped: there is no decoder.
    fn on_frame(&self, _node_id: &str, _chan: ChannelId, _data: &[u8]) {
    }
}

} // verus!
