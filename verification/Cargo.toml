[package]
name = "rmpc_album_art"
version = "0.1.0"
edition = "2021"
publish = false

[dependencies]
anyhow = "1"
crossbeam = "0.8"
ratatui = { version = "0.29", default-features = false }
serde = { version = "1", features = ["derive"] }
strum = { version = "0.26", features = ["derive"] }
