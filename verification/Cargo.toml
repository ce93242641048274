[package]
name = "backend_supervisor"
version = "0.1.0"
edition = "2021"
publish = false

[dependencies]
nix = { version = "=0.29.0", features = ["signal"] }
serde = { version = "1", features = ["derive"] }
objc2-app-kit = "0.3"
