[package]
name = "axum_inertia"
version = "0.1.0"
edition = "2021"
publish = false

[dependencies]
serde = { version = "*", features = ["derive"] }
serde_json = "*"
sha1 = "*"
hex = "*"
axum = "*"
http = "*"
