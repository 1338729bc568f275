//! A small OCI container runtime: the path layout of its runtime directory,
//! the status of a container, the labels kept in a container's state file,
//! and the values that its commands compute before they touch the system.

pub mod utils;
pub mod models;
pub mod commands;
pub mod container;
pub mod log;
