[package]
name = "zexio_agent"
version = "0.3.1"
edition = "2021"
publish = false

[dependencies]
aes-gcm = "=0.11.1"
hmac = "=0.13.0"
sha2 = "=0.11.0"
crc32fast = "=1.5.2"
rand = "=0.10.3"
jsonwebtoken = { version = "=11.1.0", features = ["rust_crypto"] }
serde_json = "=1.0.151"
serde = { version = "=1.0.229", features = ["derive"] }
tokio = { version = "=1.53.2", features = ["full"] }
reqwest = { version = "=0.13.5", default-features = false, features = ["json"] }
redis = { version = "=1.7.1", features = ["tokio-comp"] }
sysinfo = "=0.39.6"
hostname = "=0.4.2"
axum = "=0.8.9"
