//! The admission webhook: which objects may be written.
pub mod decision;
pub mod laws;
pub mod metrics;
pub mod server;
pub mod tenant_guard;
pub mod validators;
