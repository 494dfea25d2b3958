[package]
name = "zip"
version = "0.1.0"
edition = "2021"
publish = false

[dependencies]
indexmap = "*"
crc32fast = "*"
miniz_oxide = "*"
thiserror = "*"
tokio = { version = "1", features = ["fs", "io-util", "rt", "sync", "macros"] }
tokio-stream = "*"
