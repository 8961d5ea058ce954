[package]
name = "hostfix"
version = "0.1.0"
edition = "2021"
publish = false

[dependencies]
anyhow = "*"
cap-std = "*"
cap-std-ext = "*"
rustix = { version = "*", features = ["process"] }
serde = { version = "*", features = ["derive"] }
serde_json = "*"
