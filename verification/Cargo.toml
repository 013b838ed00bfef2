[package]
name = "ecc2"
version = "0.1.0"
edition = "2021"
publish = false

[dependencies]
anyhow = "1"
ratatui = { version = "0.29", default-features = false }
tokio = { version = "1", features = ["io-util", "macros", "process", "rt", "rt-multi-thread", "sync"] }
tracing = "0.1"
