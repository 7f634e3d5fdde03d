//! The tenant controller.
pub mod boundary;
pub mod flow;
pub mod laws;
