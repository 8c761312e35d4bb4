[package]
name = "aegispanel-core"
version = "1.1.1"
edition = "2021"
publish = false

[dependencies]
chrono = "0.4"
ed25519-dalek = "2"
sha2 = "0.10"
serde = { version = "1", features = ["derive"] }
serde_json = "1"
tokio = { version = "1", features = ["full"] }
tokio-tungstenite = "*"
futures-util = "0.3"
reqwest = { version = "0.12", default-features = false, features = ["json", "multipart", "rustls-tls"] }
rppal = "*"
zeroize = "1"
tracing = "0.1"
tracing-subscriber = "0.3"
