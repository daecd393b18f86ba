[package]
name = "bevy_actions"
version = "0.1.0"
edition = "2021"
publish = false

[dependencies]
anyhow = "=1.0.104"
bevy = { version = "=0.8.1", default-features = false, features = ["bevy_asset", "serialize"] }
ron = "=0.7.1"
serde = { version = "=1.0.229", features = ["derive"] }
