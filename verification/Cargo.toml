[package]
name = "agent_pull"
version = "0.1.0"
edition = "2021"
publish = false

[dependencies]
anyhow = "1"
flate2 = "1"
ipnet = "2"
log = "0.4"
tokio = { version = "1", features = ["rt", "net", "io-util", "time", "sync"] }
tokio-rustls = "0.23"
