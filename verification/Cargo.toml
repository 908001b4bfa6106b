[package]
name = "schedule_bot"
version = "0.1.0"
edition = "2021"
publish = false

[dependencies]
chrono = "0.4"
diesel = { version = "1.4", features = ["sqlite"] }
dotenv = "0.15"
futures = "0.1"
reqwest = { version = "0.11", default-features = false, features = ["blocking"] }
serde_json = "1"
telegram-bot = "0.6"
tokio-core = "0.1"
