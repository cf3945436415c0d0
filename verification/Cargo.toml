[package]
name = "gmail_archiver"
version = "0.1.0"
edition = "2021"
publish = false

[dependencies]
axum = "0.8"
backoff = { version = "0.4", features = ["tokio"] }
base64 = "0.22"
bon = "3"
chrono = "0.4"
clap = { version = "4", features = ["derive"] }
duckdb = "1"
eyre = "0.6"
maud = "0.27"
rand = "0.9"
reqwest = { version = "0.12", features = ["json"] }
serde = { version = "1", features = ["derive"] }
serde_json = "1"
sha2 = "0.10"
strum = { version = "0.27", features = ["derive"] }
thiserror = "2"
tokio = { version = "1", features = ["full"] }
tokio-stream = "0.1"
tokio-util = "0.7"
tracing = "0.1"
tracing-subscriber = { version = "0.3", features = ["env-filter"] }
webbrowser = "1"
