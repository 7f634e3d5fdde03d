//! The cluster controller.
pub mod flow;
pub mod report;
