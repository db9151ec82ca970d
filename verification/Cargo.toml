[package]
name = "homectl"
version = "0.1.0"
edition = "2021"
publish = false

[dependencies]
argon2 = "=0.5.3"
axum = "0.8"
base64 = "0.22"
chrono = "=0.4.45"
chrono-tz = "=0.10.4"
diqwest = "3"
futures = "0.3"
iana-time-zone = "=0.1.65"
log = "0.4"
rand = "0.8"
reqwest = { version = "0.13", default-features = false, features = ["json"] }
serde = { version = "1", features = ["derive"] }
simplelog = "0.12"
tokio = { version = "1", features = ["macros", "net", "rt-multi-thread", "sync", "time"] }
toml = "0.8"
tower-http = { version = "0.6", features = ["cors"] }
uuid = { version = "1", features = ["v4"] }
