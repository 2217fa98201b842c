[package]
name = "tokio_go"
version = "0.1.0"
edition = "2021"
publish = false

[dependencies]
lazy_static = "1"
tokio = { version = "1", default-features = false, features = ["rt", "rt-multi-thread", "sync", "time"] }
