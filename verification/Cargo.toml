[package]
name = "relay_pool"
version = "0.1.0"
edition = "2021"
publish = false

[dependencies]
log = "0.4"
thiserror = "1"
tokio = { version = "1", features = ["sync", "rt"] }
