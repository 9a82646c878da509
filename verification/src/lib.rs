//! A chat server's protocol and state logic: the text commands that clients
//! and servers exchange, their parameters, and the decisions the servers make.
pub mod text;
pub mod params;
pub mod pattern;
pub mod wire;
pub mod buffer;
pub mod commands;
pub mod server;
pub mod server_v2;
pub mod library;
pub mod client_management;
pub mod protocols;
pub mod status_service;
pub mod client_api;
