[package]
name = "shine_service"
version = "0.1.0"
edition = "2021"
publish = false

[dependencies]
ring = "=0.17.14"
base64 = "=0.21.7"
hex = "=0.4.3"
uuid = "=1.27.0"
chrono = "=0.4.45"
bb8 = "=0.9.1"
bb8-redis = "=0.26.0"
serde = { version = "1", features = ["derive"] }
serde_json = "1"
