[package]
name = "open_coder"
version = "0.1.0"
edition = "2021"
publish = false

[dependencies]
anyhow = "1"
cfonts = "*"
config = "*"
dialoguer = "*"
dotenvy = "*"
futures = "0.3"
indicatif = "*"
owo-colors = "*"
reqwest = { version = "0.12", default-features = false, features = ["json", "stream"] }
reqwest-eventsource = "*"
serde = { version = "1", features = ["derive"] }
serde_json = "1"
tokio = { version = "1", features = ["macros", "rt-multi-thread"] }
tracing = "0.1"
tracing-appender = "*"
tracing-subscriber = { version = "*", features = ["env-filter"] }
