//! The MQTT sink: one retained publish of the whole snapshot per cycle.

pub mod api;
pub mod configuration;
