[package]
name = "wrpc_address"
version = "0.1.0"
edition = "2021"
publish = false

[dependencies]
kaspa-utils = "*"
kaspa-consensus-core = "*"
serde = { version = "1", features = ["derive"] }
