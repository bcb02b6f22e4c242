[package]
name = "downlowd"
version = "0.1.0"
edition = "2021"
publish = false

[dependencies]
urlencoding = "2"
url = "2"
http = "1"
reqwest = { version = "0.12", default-features = false }
tokio = { version = "1", features = ["fs", "io-util", "time", "sync", "rt", "macros"] }
thiserror = "2"
chrono = "0.4"
bytes = "1"
arc-swap = "1"
ureq = { version = "3", default-features = false }
sync_executor = "*"
