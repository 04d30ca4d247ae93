[package]
name = "hi_back"
version = "0.1.0"
edition = "2021"
publish = false

[dependencies]
regex = "1"
anyhow = "1"
dotenv = "0.15"
poise = "0.6"
tokio = { version = "1", features = ["macros", "rt-multi-thread"] }
tracing = "0.1"
tracing-subscriber = "0.3"
