//! NAT traversal: STUN reflexive-address discovery and a UDP hole-punch primitive.

pub mod punch;
pub mod stun;
