//! The route controller.
pub mod flow;
pub mod report;
