[package]
name = "zero2prod"
version = "0.1.0"
edition = "2021"
publish = false

[dependencies]
argon2 = "0.5"
base64 = "0.13"
chrono = { version = "0.4", default-features = false, features = ["clock"] }
config = "0.14"
rand = "0.8"
serde = { version = "1", features = ["derive"] }
unicode-segmentation = "1"
uuid = { version = "1", features = ["v4"] }
