//! The services behind the control plane's entry points.

pub mod auth;
pub mod netlink;
