//! The component-based server library: its roles, its command set, and its
//! server with the client manager.
pub mod commands;
#[allow(non_snake_case)]
pub mod Foundation;
pub mod foundation;
pub mod server;
