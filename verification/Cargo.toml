[package]
name = "pyesb-amqp"
version = "0.1.0"
edition = "2021"
publish = false

[dependencies]
anyhow = "*"
fe2o3-amqp = { version = "*", features = ["acceptor"] }
hex = "*"
pyo3 = "*"
serde_json = "*"
tokio = { version = "*", features = ["rt-multi-thread", "sync", "time", "net", "macros"] }
tracing = "*"
tracing-subscriber = "*"
