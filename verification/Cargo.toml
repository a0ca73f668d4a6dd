[package]
name = "picoauth"
version = "0.1.0"
edition = "2021"
publish = false

[dependencies]
argon2 = "=0.5.3"
jsonwebtoken = "=9.3.1"
serde_json = "=1.0.151"
totp-rs = "=5.7.2"
rand = "=0.9.5"
base64 = "*"
axum = "0.8"
axum-extra = { version = "*", features = ["typed-header"] }
tokio = { version = "1", features = ["macros", "rt-multi-thread", "net", "time", "signal", "sync"] }
serde = { version = "1", features = ["derive"] }
tower-http = { version = "*", features = ["request-id", "timeout", "normalize-path", "catch-panic"] }
