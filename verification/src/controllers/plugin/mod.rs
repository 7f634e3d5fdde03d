//! The plugin controller: pull, verify, publish.
pub mod flow;
pub mod laws;
pub mod report;
pub mod secret;
pub mod target;
