//! The Kubernetes objects and custom resources the operator works on, as
//! plain values: what its decisions read and what they produce.
pub mod conditions;
pub mod objects;
pub mod resources;
