//! The logic of a presence bridge: it follows the meeting client's event
//! stream and tells a home-automation sink, Home Assistant or an MQTT
//! broker, which presence flags are set.
//!
//! The library decides and its caller does the work. Sockets, HTTP
//! requests, files and the clock are the caller's; the library takes what
//! happened as an event and returns what is to be done as an action.
//!
//! - `teams_ws`: the presence snapshot, the decoding of inbound messages,
//!   change detection, the dispatch with its retries, and the life of an
//!   upstream session.
//! - `home_assistant` and `mqtt`: the two sinks and their settings.
//! - `traits`: what a sink and its caller say to each other.
//! - `bridge`: a session and the sink that the settings choose.
//! - `configuration` and `settings`: the settings and their file.
//! - `teams_log`: following the meeting client's log file.
//! - `tray`, `mutex`, `logging`: what the desktop shell around the bridge
//!   decides.
//! - `wire`, `render`, `address`: JSON documents and URLs as outside
//!   crates read and write them.

pub mod address;
pub mod bridge;
pub mod configuration;
pub mod error;
pub mod home_assistant;
pub mod logging;
pub mod mqtt;
pub mod mutex;
pub mod render;
pub mod settings;
pub mod teams_log;
pub mod teams_ws;
pub mod traits;
pub mod tray;
pub mod utils;
pub mod wire;
