[package]
name = "steam_bridge"
version = "0.1.0"
edition = "2021"
publish = false

[dependencies]
napi = { version = "=2.16.17", default-features = false, features = ["napi6", "tokio_rt", "serde-json"] }
napi-derive = "=2.16.13"
serde = { version = "=1.0.229", features = ["derive"] }
serde_json = "=1.0.154"
steamworks = { version = "0.11", features = ["serde"] }
tokio = { version = "=1.54.1", features = ["sync", "time", "rt"] }
