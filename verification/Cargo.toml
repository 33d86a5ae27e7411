[package]
name = "discordbot"
version = "0.1.0"
edition = "2021"
publish = false

[dependencies]
serenity = "0.12"
tokio = { version = "1", features = ["macros", "rt-multi-thread", "signal"] }
serde_json = { version = "1", features = ["raw_value"] }
anyhow = "1"
dotenv = "0.15"
