//! The Home Assistant sink: one state-set request for each flag that
//! changed, behind a health probe.

pub mod api;
pub mod client;
pub mod configuration;
pub mod laws;
