[package]
name = "mailbridge"
version = "0.1.0"
edition = "2021"
publish = false

[dependencies]
anyhow = "1"
async-imap = { version = "0.10", default-features = false, features = ["runtime-tokio"] }
axum = "0.7"
futures = "0.3"
lettre = "0.11"
native-tls = "0.2"
reqwest = { version = "0.12", features = ["json"] }
serde = { version = "1", features = ["derive"] }
serde_json = "1"
tokio = { version = "1", features = ["full"] }
tokio-native-tls = "0.3"
tracing = "0.1"
tracing-subscriber = "0.3"
