[package]
name = "steamworksjs"
version = "0.1.0"
edition = "2021"
publish = false

[dependencies]
napi = { version = "2", default-features = false, features = ["napi6", "tokio_rt"] }
napi-derive = "2"
steamworks = "0.10"
tokio = { version = "1", features = ["sync", "rt", "time"] }
