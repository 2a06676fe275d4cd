[package]
name = "matchstick"
version = "0.1.0"
edition = "2021"
publish = false

[dependencies]
anyhow = "1"
semver = "1"
tokio = { version = "0.2", features = ["time"] }
wasmtime = "0.27"
