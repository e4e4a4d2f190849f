[package]
name = "andinum_pod"
version = "0.1.0"
edition = "2021"
publish = false

[dependencies]
ratatui = "0.27"
systemstat = "0.2"
tokio = { version = "1", features = ["macros", "rt-multi-thread"] }
