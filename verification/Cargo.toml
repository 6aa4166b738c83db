[package]
name = "catapult"
version = "0.1.0"
edition = "2021"
publish = false

[dependencies]
tokio = { version = "1", features = ["rt", "rt-multi-thread", "sync", "time", "macros", "io-util"] }
tokio-serial = "5"
serialport = { version = "4", default-features = false }
serde = { version = "1", features = ["derive"] }
thiserror = "1"
tracing = "0.1"
