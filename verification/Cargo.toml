[package]
name = "discord_client"
version = "0.1.0"
edition = "2021"
publish = false

[dependencies]
reqwest = "=0.13.5"
serde_json = "=1.0.154"
