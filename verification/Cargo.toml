[package]
name = "crispy-xtream"
version = "0.1.1"
edition = "2021"
publish = false

[dependencies]
base64 = "0.22"
url = "2"
serde = { version = "1", features = ["derive"] }
serde_json = "1"
secrecy = "0.10"
reqwest = { version = "0.12", default-features = false, features = ["json", "rustls-tls"] }
tokio = { version = "1", features = ["sync", "time"] }
thiserror = "2"
tracing = "0.1"
