[package]
name = "github_notifier"
version = "0.1.0"
edition = "2021"
publish = false

[dependencies]
base64 = "0.22"
oauth2 = { version = "4", default-features = false }
url = "2"
serde = { version = "1", features = ["derive"] }
serde_json = "1"
tokio = { version = "1", features = ["full"] }
futures = "0.3"
reqwest = { version = "0.11", default-features = false, features = ["rustls-tls", "json"] }
anyhow = "1"
dotenv = "0.15"
