[package]
name = "installer"
version = "0.1.0"
edition = "2021"
publish = false

[dependencies]
anyhow = "1"
parking_lot = "0.12"
serde = { version = "1", features = ["derive"] }
serde_json = "1"
slint = { version = "1.13", default-features = false, features = ["std", "compat-1-2"] }
tracing = "0.1"
tracing-subscriber = { version = "0.3", features = ["env-filter"] }
