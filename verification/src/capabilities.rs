//! Per-feature platform capability traits. A platform implements only the ones
//! it supports; the core asks which are there and degrades gracefully when one is
//! absent.
//!
//! The AV / input / screen traits are seams for the heavy services (audio-video
//! calls, remote control), so that those can be written against a stable interface.

use vstd::prelude::*;

verus! {

/// System clipboard access.
pub trait Clipboard: Send + Sync {
    fn get(&self) -> Option<String>;

    fn set(&self, text: &str);
}

/// Post a local OS notification (the receive side of notification sharing).
pub trait Notifier: Send + Sync {
    fn post(&self, title: &str, body: &str);
}

/// Microphone capture + speaker playback (audio calls).
pub trait AudioIo: Send + Sync {

}

/// Camera capture + frame display (video calls).
pub trait VideoIo: Send + Sync {

}

/// Screen capture source (remote control / screen share).
pub trait ScreenSource: Send + Sync {

}

/// Inject keyboard/mouse/touch events (remote control).
pub trait InputSink: Send + Sync {

}

/// Which optional capabilities the host platform has.
#[derive(Clone, Copy, Debug, PartialEq, Eq, Structural)]
pub struct Capabilities {
    pub clipboard: bool,
    pub notifier: bool,
}

} // verus!
