[package]
name = "rymder"
version = "0.6.0"
edition = "2021"
publish = false

[dependencies]
chrono = { version = "0.4", default-features = false, features = ["std", "clock"] }
http = "0.2"
tonic = "0.10"
prost = "0.12"
tokio = { version = "1", features = ["rt", "time", "sync", "macros"] }
time = "0.3"
futures-util = "0.3"
async-stream = "0.3"
