[package]
name = "quilore"
version = "0.1.0"
edition = "2021"
publish = false

[dependencies]
serde_json = "1"
url = "2"
html-escape = "0.2"
urlencoding = "2"
chrono = { version = "0.4", default-features = false, features = ["clock"] }
serde = { version = "1", features = ["derive"] }
anyhow = "1"
tokio = { version = "1", features = ["rt", "sync", "time", "fs", "io-util"] }
futures-util = "0.3"
reqwest = { version = "0.12", default-features = false, features = ["stream", "json"] }
