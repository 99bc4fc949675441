[package]
name = "fedcoord"
version = "0.1.0"
edition = "2021"
publish = false

[dependencies]
tokio = { version = "*", features = ["sync", "rt", "macros"], default-features = false }
