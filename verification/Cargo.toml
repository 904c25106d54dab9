[package]
name = "provider_bot"
version = "0.1.0"
edition = "2021"
publish = false

[dependencies]
roux = "*"
tokio = { version = "*", features = ["macros", "rt-multi-thread"] }
serde = { version = "*", features = ["derive"] }
serde_json = "*"
