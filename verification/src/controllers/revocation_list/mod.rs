//! The revocation-list controller.
pub mod flow;
pub mod list;
