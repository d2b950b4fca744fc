[package]
name = "serenity-embed-builder"
version = "0.1.0"
edition = "2021"
publish = false

[dependencies]
serenity = { version = "0.12", default-features = false, features = ["builder"] }
serde = { version = "1", features = ["derive"] }
thiserror = "*"
typed-builder = "*"

[dev-dependencies]
serde_json = "1"
