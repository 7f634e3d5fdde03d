//! The operator's controllers.
pub mod cluster;
pub mod flow_laws;
pub mod gateway;
pub mod laws;
pub mod plugin;
pub mod plugin_mirror;
pub mod plugin_set;
pub mod report;
pub mod revocation_list;
pub mod route;
pub mod server;
pub mod tenant;
