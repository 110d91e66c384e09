[package]
name = "rdma_session"
version = "0.1.0"
edition = "2021"
publish = false

[dependencies]
tokio = { version = "1", features = ["sync", "time", "rt"] }
futures-util = "0.3"
syn = { version = "2", features = ["full", "visit", "parsing", "printing"] }
tracing = "0.1"
