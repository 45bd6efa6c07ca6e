[package]
name = "space_game"
version = "0.1.0"
edition = "2021"
publish = false

[dependencies]
rand = "=0.7.3"
cgmath = "=0.17.0"
serde = { version = "1", features = ["derive"] }
bincode = "1"
