[package]
name = "daily_checkin"
version = "0.1.0"
edition = "2021"
publish = false

[dependencies]
anyhow = "1"
ctrlc = "3"
reqwest = { version = "0.12", features = ["blocking", "json"] }
serde = { version = "1", features = ["derive"] }
