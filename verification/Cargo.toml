[package]
name = "butterfly"
version = "0.1.0"
edition = "2021"
publish = false

[dependencies]
rand = "=0.8.8"
url = "=2.5.8"
serde = { version = "=1.0.229", features = ["derive"] }
serde_json = "=1.0.154"
worker = "0.8"
console_error_panic_hook = "=0.1.7"
