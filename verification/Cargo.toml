[package]
name = "aether_agent"
version = "0.1.0"
edition = "2021"
publish = false

[dependencies]
sha2 = "0.10"
uuid = { version = "1", features = ["v4"] }
serde = { version = "1", features = ["derive"] }
serde_json = "1"
thiserror = "1"
