//! What may be written, kind by kind.
pub mod cluster;
pub mod dns;
pub mod gateway;
pub mod plugin;
pub mod plugin_mirror;
pub mod plugin_set;
pub mod revocation_list;
pub mod route;
pub mod server;
pub mod tenant;
