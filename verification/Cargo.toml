[package]
name = "prompt_bot"
version = "0.1.0"
edition = "2021"
publish = false

[dependencies]
argh = "=0.1.19"
serenity = { version = "=0.10.10", default-features = false, features = ["builder", "cache", "client", "gateway", "model", "http", "utils", "rustls_backend", "collector", "unstable_discord_api"] }
teloxide = { version = "=0.5.3", default-features = false, features = ["rustls"] }
tokio = { version = "=1.54.1", features = ["macros", "rt-multi-thread"] }
tokio-util = { version = "=0.6.10", features = ["codec"] }
