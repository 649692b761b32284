//! Protocol v2: binary multiplexed framing for the streaming/channel-mux layer.
//!
//! This is the seam for audio/video and remote control, which cannot ride the v1
//! JSON control-message path. The `ver` byte of a frame lets v1 and v2 coexist.

pub mod be;
pub mod frame;
pub mod mux;
