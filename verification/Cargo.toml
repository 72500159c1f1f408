[package]
name = "loop-retry"
version = "0.1.1"
edition = "2021"
publish = false

[dependencies]
rand = "0.8"
thiserror = "1"
tokio = { version = "1", features = ["time"] }
