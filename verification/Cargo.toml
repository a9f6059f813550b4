[package]
name = "portkiller_core"
version = "0.1.0"
edition = "2021"
publish = false

[dependencies]
nix = { version = "*", features = ["signal", "poll"] }
anyhow = "*"
serde = { version = "*", features = ["derive"] }
serde_json = "*"
