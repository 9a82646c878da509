//! The chat server: its commands, its helpers and its state.
pub mod commands;
pub mod utility;
pub mod server_v3;
pub mod client;
pub mod server_profile;
pub mod ui;
