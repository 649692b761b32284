//! Streaming services (protocol v2). Each implements `crate::service::Service` and
//! rides v2 channels: media on a datagram channel, control/input on a reliable one.

pub mod av;
pub mod remotecontrol;
