[package]
name = "tilepad_twitch"
version = "0.1.0"
edition = "2021"
publish = false

[dependencies]
anyhow = "=1.0.104"
parking_lot = "=0.12.5"
reqwest = { version = "=0.13.5", default-features = false, features = ["rustls"] }
serde = { version = "=1.0.229", features = ["derive"] }
serde_json = "=1.0.151"
serde_urlencoded = "=0.7.1"
tilepad-plugin-sdk = "=0.7.0"
tokio = { version = "=1.53.2", features = ["macros", "rt", "time"] }
twitch_api = { version = "=0.8.0", features = ["helix", "reqwest", "twitch_oauth2"] }
