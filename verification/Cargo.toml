[package]
name = "webp"
version = "0.1.0"
edition = "2021"
publish = false

[dependencies]
image = { version = "0.25", default-features = false }
thiserror = "2"
libwebp-sys = "*"
