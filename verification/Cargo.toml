[package]
name = "xenstore_async"
version = "0.1.0"
edition = "2021"
publish = false

[dependencies]
async-executor = "1"
async-io = "2"
async-net = "2"
flume = "0.11"
futures = "0.3"
log = "0.4"
tokio = { version = "1", features = ["net", "rt", "io-util"] }
tokio-util = { version = "0.7", features = ["compat"] }
