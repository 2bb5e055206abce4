//! Verified core of host access, host port exposure and file copying for test containers.

pub mod copy;
pub mod host_access;
pub mod host_exposure;
pub mod request;
pub mod text;
