//! The plugin-set controller: resolve, copy, publish.
pub mod document;
pub mod flow;
pub mod laws;
pub mod objects;
pub mod report;
pub mod resolve;
