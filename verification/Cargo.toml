[package]
name = "cross_exchange_arbitrage"
version = "0.1.0"
edition = "2021"
publish = false

[dependencies]
rand = "0.8"
chrono = "0.4"
uuid = { version = "1", features = ["v4"] }
clap = { version = "4", features = ["derive"] }
toml = "0.8"
serde = { version = "1", features = ["derive"] }
tracing = "0.1"
tracing-subscriber = { version = "0.3", features = ["env-filter"] }
tracing-appender = "0.2"
