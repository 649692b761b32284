//! The shared core of the my-domain clients: LAN discovery, end-to-end encrypted
//! messaging between a user's devices, the features that ride on it, and the ladder
//! by which two devices find a path to each other.
//!
//! The core holds the state and takes the decisions. Sockets, threads, HTTP and the
//! clock belong to the host, which calls in with what happened and performs the
//! effects that come back. Platform specifics stay behind the traits in
//! `capabilities` and the values in `platform`.
//!
//! Layering: `engine` on top of `transport` (UDP/TCP/WS/punch/WebRTC), `discovery`,
//! `registry` and `features`. `service` and `wire` are the seam for the channel-mux
//! (protocol v2).

pub mod capabilities;
pub mod crypto;
pub mod discovery;
pub mod encoding;
pub mod engine;
pub mod error;
pub mod events;
pub mod features;
pub mod ids;
pub mod json;
pub mod laws;
pub mod messages;
pub mod model;
pub mod net;
pub mod node_map;
pub mod platform;
pub mod registry;
pub mod service;
pub mod services;
pub mod signal;
pub mod text;
pub mod transport;
pub mod traversal;
pub mod wire;

pub use engine::Engine;
pub use error::{CoreError, CoreResult};
pub use events::{CoreEvent, EventSink};
pub use platform::IfaceMode;
