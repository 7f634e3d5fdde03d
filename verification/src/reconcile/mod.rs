//! What all controllers share: how a reconcile begins and ends, finalizers,
//! status patches, and which changes are worth a reconcile.
pub mod finalizers;
pub mod flow;
pub mod laws;
pub mod ssa;
pub mod status;
pub mod watch;
