[package]
name = "polarion_sync"
version = "0.1.0"
edition = "2021"
publish = false

[dependencies]
percent-encoding = "2"
serde_json = "1"
serde = { version = "1", features = ["derive"] }
anyhow = "1"
colored = "2"
dirs = "5"
reqwest = { version = "0.12", default-features = false, features = ["blocking", "multipart", "rustls-tls"] }
