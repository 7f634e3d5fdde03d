//! The plugin-mirror controller.
pub mod flow;
pub mod report;
