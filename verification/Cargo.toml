[package]
name = "igor"
version = "0.1.0"
edition = "2021"
publish = false

[dependencies]
anyhow = "*"
chrono = "*"
clap = { version = "*", features = ["derive", "env"] }
crossterm = { version = "*", features = ["event-stream"] }
dirs = "*"
dotenvy = "*"
futures = "*"
ratatui = "*"
reqwest = { version = "*", default-features = false, features = ["json", "query"] }
serde = { version = "*", features = ["derive"] }
tokio = { version = "*", features = ["rt-multi-thread", "macros", "time", "sync"] }
tokio-util = "*"
toml = "*"
tracing = "*"
tracing-appender = "*"
tracing-subscriber = "*"
