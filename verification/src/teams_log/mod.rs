//! Following the log file of the meeting client.

pub mod file_locator;
pub mod parser;
pub mod watcher;
