[package]
name = "openclaw_desktop"
version = "0.1.0"
edition = "2021"
publish = false

[dependencies]
anyhow = "1"
keyring = "3"
once_cell = "1"
reqwest = { version = "0.12", features = ["blocking", "json"] }
serde = { version = "1", features = ["derive"] }
serde_json = "1"
