[package]
name = "subagent"
version = "0.1.0"
edition = "2021"
publish = false

[dependencies]
percent-encoding = "*"
tokio = { version = "*", features = ["rt-multi-thread", "macros", "sync", "fs", "io-util"] }
tokio-tungstenite = "*"
futures-util = { version = "*", features = ["sink"] }
reqwest = { version = "*", default-features = false }
systemstat = "*"
