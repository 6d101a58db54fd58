[package]
name = "tpi"
version = "0.1.0"
edition = "2021"
publish = false

[dependencies]
anyhow = "=1.0.104"
chrono = { version = "0.4", default-features = false, features = ["std"] }
clap = { version = "=4.6.7", features = ["derive", "env"] }
clap_complete = "=4.6.11"
crc32fast = "=1.5.3"
crossterm = "=0.29.0"
dirs = "=7.0.0"
hex = "0.4"
indicatif = "=0.18.6"
platform-info = "=2.2.1"
reqwest = { version = "=0.12.28", default-features = false, features = ["json", "multipart", "stream", "gzip", "rustls-tls"] }
serde_json = "=1.0.154"
tokio = { version = "=1.54.1", features = ["full"] }
url = "=2.5.8"
