[package]
name = "prometheus_tokio"
version = "0.1.0"
edition = "2021"
publish = false

[dependencies]
prometheus = "0.13"
tokio = { version = "1", features = ["rt", "rt-multi-thread", "macros"] }
tracing = "0.1"
