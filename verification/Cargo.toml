[package]
name = "shared_container"
version = "3.0.0"
edition = "2021"
publish = false

[dependencies]
tokio = { version = "1", features = ["sync", "rt", "rt-multi-thread"] }
