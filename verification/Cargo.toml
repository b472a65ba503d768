[package]
name = "player_count_bot"
version = "0.1.0"
edition = "2021"
publish = false

[dependencies]
a2s = { version = "=0.6.1", features = ["async"] }
anyhow = "=1.0.104"
crossterm = "=0.29.0"
humantime = "=2.4.0"
humantime-serde = "=1.1.1"
log = "=0.4.34"
serde = { version = "=1.0.229", features = ["derive"] }
serenity = "=0.12.5"
simplelog = "=0.12.2"
thiserror = "=2.0.21"
tokio = { version = "=1.53.2", features = ["macros", "rt", "signal", "time"] }
toml = "=1.1.7"
