[package]
name = "wormhole_native"
version = "0.1.0"
edition = "2021"
publish = false

[dependencies]
magic-wormhole = "0.7"
tokio = { version = "1", features = ["rt", "sync", "macros"] }
futures = "0.3"
async-std = "1"
