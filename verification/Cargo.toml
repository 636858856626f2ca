[package]
name = "event_relay"
version = "0.1.0"
edition = "2021"
publish = false

[dependencies]
rand = "*"
serde = { version = "*", features = ["derive"] }
serde_json = "*"
tokio = { version = "*", features = ["full"] }
axum = "*"
socketioxide = "*"
tower-http = { version = "*", features = ["cors"] }
sqlx = { version = "*", default-features = false, features = ["runtime-tokio", "tls-rustls", "mysql"] }
dotenvy = "*"
tracing = "*"
tracing-subscriber = "*"
