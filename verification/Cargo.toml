[package]
name = "ocvoice-audio-router"
version = "0.4.0"
edition = "2021"
publish = false

[dependencies]
axum = "0.7"
cpal = "0.15"
open = "5"
reqwest = { version = "0.12", default-features = false, features = ["json", "rustls-tls"] }
semver = "1"
serde = { version = "1", features = ["derive"] }
serde_json = "1"
symphonia = { version = "0.5", features = ["mp3"] }
tokio = { version = "1", features = ["full"] }
tower-http = { version = "0.6", features = ["cors"] }
tray-item = "0.10"
