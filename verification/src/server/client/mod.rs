//! The clients of the servers.
pub mod client_profile;
pub mod client_v3;
