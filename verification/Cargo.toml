[package]
name = "cj_ascii"
version = "0.1.0"
edition = "2021"
publish = false

[dependencies]
futures = "0.3"
serde = "1"
tokio = { version = "1", features = ["fs", "rt"] }
tokio-util = { version = "0.7", features = ["compat"] }
