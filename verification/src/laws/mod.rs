//! What the operations of the core are for, each stated of the operation itself: of
//! whatever a call may leave behind and return, in terms of what went into it.

pub mod features;
pub mod ladder;
pub mod links;
pub mod messages;
pub mod parts;
pub mod peers;
pub mod requests;
pub mod sending;
pub mod session;
pub mod sharing;
pub mod signals;
pub mod values;
pub mod wire;
