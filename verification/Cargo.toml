[package]
name = "seuss"
version = "0.1.0"
edition = "2021"
publish = false

[dependencies]
base64 = "=0.21.7"
axum = { version = "=0.7.9", default-features = false, features = ["json"] }
serde = { version = "1", features = ["derive"] }
