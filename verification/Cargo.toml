[package]
name = "hqm_server"
version = "0.1.0"
edition = "2021"
publish = false

[dependencies]
async-stream = "0.3"
bytes = "1"
chrono = "0.4"
futures = "0.3"
nalgebra = "0.32"
reqwest = { version = "0.11", default-features = false, features = ["multipart", "stream"] }
smallvec = "1"
tokio = { version = "1", features = ["fs", "io-util", "macros", "net", "rt-multi-thread", "time"] }
tracing = "0.1"
uuid = { version = "1", features = ["v4"] }
