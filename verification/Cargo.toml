[package]
name = "path-opener"
version = "0.5.1"
edition = "2021"
publish = false

[dependencies]
dirs = "*"
which = "*"
serde = { version = "1", features = ["derive"] }
serde_json = "1"
thiserror = "*"
specta = "*"
