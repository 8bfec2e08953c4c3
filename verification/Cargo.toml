[package]
name = "crypto_feeds"
version = "0.1.0"
edition = "2021"
publish = false

[dependencies]
anyhow = "1"
async-trait = "0.1"
chrono = "0.4"
futures-util = "0.3"
log = "0.4"
once_cell = "1"
prost = "0.13"
reqwest = "0.12"
rustc-hash = "2"
serde = { version = "1", features = ["derive"] }
serde_json = "1"
serde_yaml = "0.9"
tokio = { version = "1", features = ["full"] }
tokio-tungstenite = { version = "*", features = ["native-tls"] }

[dev-dependencies]
ordered-float = "*"
