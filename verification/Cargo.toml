[package]
name = "image_store"
version = "0.1.0"
edition = "2021"
publish = false

[dependencies]
image = { version = "*", default-features = false, features = ["png", "jpeg", "webp"] }
uuid = { version = "*", features = ["v4"] }
