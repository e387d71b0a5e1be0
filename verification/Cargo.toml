[package]
name = "rust_native"
version = "0.1.0"
edition = "2021"
publish = false

[dependencies]
android_logger_lite = "*"
jni = "0.20"
openssl = "0.10"
zip = { version = "0.6", default-features = false, features = ["deflate"] }
