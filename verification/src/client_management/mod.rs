//! The profiles of connected clients.
pub mod client_profile;
