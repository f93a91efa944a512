[package]
name = "tokio_print"
version = "0.1.0"
edition = "2021"
publish = false

[dependencies]
lazy_static = "1"
safety_breaker = "*"
tokio = { version = "1", features = ["io-std", "io-util", "rt", "sync"] }
