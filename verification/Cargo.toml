[package]
name = "benchbot"
version = "0.1.0"
edition = "2021"
publish = false

[dependencies]
anyhow = "=1.0.104"
axum = "=0.8.9"
chrono = "=0.4.45"
directories = "=6.0.0"
git2 = { version = "=0.21.0", default-features = false }
hmac-sha256 = "=1.1.15"
http = "=1.5.0"
octocrab = "=0.44.1"
secrecy = "=0.10.3"
serde = { version = "=1.0.229", features = ["derive"] }
serde_json = "=1.0.151"
serde_json5 = "=0.2.1"
tokio = { version = "=1.53.2", features = ["rt-multi-thread", "macros", "net", "process", "io-util", "sync", "time"] }
tower-http = { version = "=0.7.1", features = ["trace"] }
