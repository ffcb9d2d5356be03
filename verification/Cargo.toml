[package]
name = "mpow"
version = "0.1.0"
edition = "2021"
publish = false

[dependencies]
axum = "0.7"
html-escape = "0.2"
jsonwebtoken = "9"
rand = "0.8"
serde = { version = "1", features = ["derive"] }
serde_json = "1"
sha2 = "0.10"
tokio = { version = "1", features = ["rt-multi-thread", "macros", "net"] }
uuid = { version = "1", features = ["v4"] }
