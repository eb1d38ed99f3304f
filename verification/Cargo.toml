[package]
name = "webviz_server"
version = "0.1.0"
edition = "2021"
publish = false

[dependencies]
tungstenite = { version = "0.16", default-features = false }
tokio = { version = "1", features = ["sync", "rt", "rt-multi-thread", "net", "time", "macros"] }
tokio-tungstenite = { version = "0.16", default-features = false }
futures-util = { version = "0.3", features = ["sink"] }
pyo3 = { version = "0.20", features = ["extension-module"] }
