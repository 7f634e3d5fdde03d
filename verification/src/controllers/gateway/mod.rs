//! The gateway controller.
pub mod cluster;
pub mod config;
pub mod edge;
pub mod edge_flow;
pub mod flow;
pub mod flow_laws;
pub mod laws;
pub mod plan;
pub mod plugin_set;
pub mod revocation;
pub mod routes;
pub mod servers;
pub mod status;
pub mod watch;
