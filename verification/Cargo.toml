[package]
name = "hn_sync"
version = "0.1.0"
edition = "2021"
publish = false

[dependencies]
rusqlite = "*"
hacker-news = "*"
tokio = { version = "1", features = ["rt-multi-thread", "macros", "sync", "time"] }
log = "0.4"
env_logger = "*"
