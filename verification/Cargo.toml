[package]
name = "konto"
version = "0.1.0"
edition = "2021"
publish = false

[dependencies]
csv = "*"
rust_decimal = "*"
chrono = "*"
quick-xml = "*"
serde_json = "*"
calamine = "*"
serde = { version = "*", features = ["derive"] }
thiserror = "*"
axum = "*"
tracing = "*"
jsonwebtoken = "*"
uuid = { version = "*", features = ["v4"] }
rand = "*"
