pub mod config;
pub mod init;
pub mod oci;
pub mod state;
