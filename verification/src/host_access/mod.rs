//! Letting containers reach their host by name, through the engine or through its gateway address.

pub mod extra_hosts;
pub mod gateway;
pub mod probe;
pub mod version;
