[package]
name = "whale_watch"
version = "0.1.0"
edition = "2021"
publish = false

[dependencies]
anyhow = "1"
dotenv = "0.15"
futures = "0.3"
reqwest = { version = "0.11", default-features = false, features = ["json", "rustls-tls"] }
serde_json = "1"
tokio = { version = "1", features = ["rt-multi-thread", "macros", "sync"] }
tokio-tungstenite = { version = "*", features = ["rustls-tls-webpki-roots"] }
