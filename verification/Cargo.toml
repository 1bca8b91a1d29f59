[package]
name = "sunny"
version = "0.1.0"
edition = "2021"
publish = false

[dependencies]
url = "2"
serde_json = "1"
reqwest = { version = "0.11", features = ["json"] }
rspotify = "0.12"
rspotify-model = "0.12"
serenity = "0.10"
songbird = "0.2"
tracing = "0.1"
tokio = { version = "1", features = ["macros", "rt-multi-thread"] }
