[package]
name = "fonos_app"
version = "0.1.0"
edition = "2021"
publish = false

[dependencies]
serde = { version = "=1.0.228", features = ["derive"] }
serde_json = "=1.0.149"
tokio = { version = "1", default-features = false, features = ["sync"] }
