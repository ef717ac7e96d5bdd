[package]
name = "jwt_auth"
version = "0.1.0"
edition = "2021"
publish = false

[dependencies]
axum = { version = "0.7", default-features = false }
chrono = { version = "0.4", default-features = false, features = ["clock"] }
jsonwebtoken = "9"
serde = { version = "1", features = ["derive"] }
serde_json = "1"
