[package]
name = "rust_chat_server"
version = "0.1.5"
edition = "2021"
publish = false

[dependencies]
regex = "1"
zeroize = "1"
uuid = { version = "1", features = ["v4"] }
crossbeam = "0.8"
crossbeam-channel = "0.5"
parking_lot = "0.12"
serde = { version = "1", features = ["derive"] }
serde_json = "1"
log = "0.4"
clap = "3"
cursive = { version = "0.20", default-features = false, features = ["crossterm-backend"] }
