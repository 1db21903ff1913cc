//! The upstream side of the bridge: the presence snapshot, the decoding of
//! inbound messages, change detection, and the session's decisions.

pub mod api;
pub mod configuration;
pub mod detector;
pub mod dispatch;
pub mod events;
pub mod states;
