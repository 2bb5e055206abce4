//! Copying files into containers and out of them, as tar archives.

pub mod archive;
pub mod extract;
pub mod path;
pub mod source;
