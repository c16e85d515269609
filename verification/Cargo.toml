[package]
name = "gpt_discord_bot"
version = "0.1.0"
edition = "2021"
publish = false

[dependencies]
chatgpt_rs = { version = "1", features = ["streams"] }
dotenv = "0.15"
futures = "0.3"
serenity = "0.12"
thiserror = "1"
tokio = { version = "1", features = ["macros", "rt-multi-thread", "sync", "time"] }
tracing = "0.1"
tracing-subscriber = "0.3"
