//! The profile backend: its records as plain values, how they are read and
//! written, and what is decided on them.

pub mod value;
pub mod route_rule;
pub mod ieee8021x;
pub mod ipvlan;
pub mod veth;
pub mod iface_type;
pub mod connection;
pub mod query;
pub mod show;
pub mod reapply;
pub mod apply;
pub mod plan;
pub mod vpn;
pub mod active_connection;
