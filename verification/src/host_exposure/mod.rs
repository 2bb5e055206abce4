//! Exposing ports of the host inside a container, through the reverse tunnels of an SSH sidecar.

pub mod connect;
pub mod error;
pub mod forward;
pub mod lifecycle;
pub mod plan;
pub mod ports;
