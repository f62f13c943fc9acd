//! The rules of each operation, on the records that it works on.

pub mod config;
pub mod movement;
pub mod registry;
pub mod signal;
pub mod subscription;
