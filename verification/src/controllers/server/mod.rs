//! The server controller.
pub mod flow;
pub mod report;
