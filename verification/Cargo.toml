[package]
name = "pump_sniper"
version = "0.1.0"
edition = "2021"
publish = false

[dependencies]
anyhow = "1"
base64 = "0.22"
bincode = "1.3"
bs58 = "0.5"
chrono = "0.4"
dotenv = "0.15"
futures-util = "0.3"
reqwest = { version = "0.12", default-features = false, features = ["json", "rustls-tls"] }
serde = { version = "1", features = ["derive"] }
serde_json = "1"
solana-sdk = { version = "=2.1.21", default-features = false, features = ["full"] }
spl-associated-token-account = { version = "=6.0.0", features = ["no-entrypoint"] }
tokio = { version = "1", features = ["full"] }
tokio-tungstenite = { version = "0.26", features = ["rustls-tls-webpki-roots", "url"] }
toml = "0.8"
url = "2"
