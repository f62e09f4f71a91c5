[package]
name = "selfplay"
version = "0.1.0"
edition = "2021"
publish = false

[dependencies]
xorshift = "=0.1.3"
serde = { version = "=1.0.229", features = ["derive"] }
serde_json = "=1.0.151"
mysql = { version = "=28.0.3", default-features = false, features = ["minimal-rust"] }
