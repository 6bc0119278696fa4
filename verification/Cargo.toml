[package]
name = "olympus_sdk"
version = "0.3.0"
edition = "2021"
publish = false

[dependencies]
base64 = "0.22"
serde_json = "1"
urlencoding = "2"
serde = { version = "1", features = ["derive"] }
reqwest = { version = "0.12", default-features = false, features = ["json", "rustls-tls"] }
tokio = { version = "1", features = ["sync", "time", "rt", "macros"] }
thiserror = "1"
chrono = { version = "0.4", default-features = false, features = ["serde", "clock", "std"] }
uuid = { version = "1", features = ["serde", "v4"] }
