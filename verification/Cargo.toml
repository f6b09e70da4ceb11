[package]
name = "deconz"
version = "0.1.0"
edition = "2021"
publish = false

[dependencies]
tokio = { version = "1", features = ["rt-multi-thread", "macros", "sync", "io-util", "time"] }
tokio-serial = "5"
futures-util = "0.3"
log = "0.4"
pretty_env_logger = "0.5"
