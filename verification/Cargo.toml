[package]
name = "qbittorrent-mcp-rs"
version = "0.1.0"
edition = "2021"
publish = false

[dependencies]
anyhow = "1"
async-trait = "*"
axum = "*"
clap = "4"
config = { version = "*", default-features = false, features = ["toml", "json", "yaml"] }
mcp-sdk-rs = "*"
regex = "1"
reqwest = { version = "*", features = ["json", "multipart", "cookies"] }
serde = { version = "1", features = ["derive"] }
serde_json = "1"
tokio = { version = "1", features = ["full"] }
tracing = "0.1"
tracing-appender = "0.2"
tracing-subscriber = { version = "0.3", features = ["env-filter"] }
url = "2"
