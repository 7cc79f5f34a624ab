[package]
name = "op_export"
version = "0.1.0"
edition = "2021"
publish = false

[dependencies]
rustea = "*"
serde = { version = "*", features = ["derive"] }
serde_json = "*"
