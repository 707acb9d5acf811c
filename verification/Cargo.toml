[package]
name = "channel_sessions"
version = "0.1.0"
edition = "2021"
publish = false

[dependencies]
async-trait = "=0.1.92"
chrono = { version = "=0.4.45", default-features = false }
dotenv = "=0.15.0"
futures = "=0.3.34"
redis = { version = "=0.25.5", features = ["tokio-comp", "connection-manager"] }
reqwest = { version = "=0.13.5", features = ["json"] }
serde = { version = "=1.0.229", features = ["derive"] }
serde_json = "=1.0.154"
tokio = { version = "=1.54.1", features = ["full"] }
twitch-irc = { version = "=5.0.1", features = ["refreshing-token-native-tls"] }
twitch_api = { version = "=0.8.0", features = ["helix", "client", "reqwest", "twitch_oauth2"] }
