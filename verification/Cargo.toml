[package]
name = "auth_core"
version = "0.1.0"
edition = "2021"
publish = false

[dependencies]
password-auth = "=1.0.0"
rand = "=0.10.3"
chrono = "=0.4.45"
cookie = { version = "=0.18.2", features = ["percent-encode"] }
serde = { version = "=1.0.229", features = ["derive"] }
serde_json = "=1.0.154"
axum = "=0.8.9"
http = "=1.5.0"
tokio = { version = "=1.54.1", features = ["full"] }
tower-sessions = "=0.15.0"
dioxus = { version = "=0.7.10", features = ["fullstack", "router", "server"] }
