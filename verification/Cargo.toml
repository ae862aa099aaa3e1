[package]
name = "auth_core"
version = "0.1.0"
edition = "2021"
publish = false

[dependencies]
argon2 = { version = "=0.5.3", features = ["std"] }
axum = { version = "0.6", features = ["headers", "macros"] }
chacha20poly1305 = "=0.10.1"
chrono = { version = "=0.4.45", features = ["serde"] }
futures = "0.3"
nanoid = "=0.4.0"
openssl = "=0.10.81"
serde = { version = "1", features = ["derive"] }
serde_json = "1"
thiserror = "1"
tokio = { version = "1", features = ["full"] }
tokio-util = { version = "0.7", features = ["io"] }
totp-rs = { version = "=5.7.2", features = ["otpauth", "gen_secret", "qr"] }
tower-http = { version = "0.4", features = ["cors", "fs"] }
tracing = "0.1"
tracing-subscriber = { version = "0.3", features = ["env-filter"] }
version-compare = "=0.1.1"
