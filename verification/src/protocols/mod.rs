//! The first protocol design: commands that a server executes against a
//! client connection.
pub mod commands;
