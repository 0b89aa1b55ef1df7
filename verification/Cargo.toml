[package]
name = "photon_gateway"
version = "0.1.0"
edition = "2021"
publish = false

[dependencies]
axum = "*"
axum-extra = { version = "*", features = ["query"] }
axum-macros = "*"
deadpool = "*"
elasticsearch = "=8.19.0-alpha.1"
serde = { version = "*", features = ["derive"] }
serde_json = "*"
tokio = { version = "*", features = ["full"] }
