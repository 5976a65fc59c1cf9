[package]
name = "regbot"
version = "0.1.0"
edition = "2021"
publish = false

[dependencies]
tokio = { version = "1", features = ["sync", "rt-multi-thread", "macros"] }
serenity = "0.11"
sqlx = { version = "0.7", features = ["sqlite", "runtime-tokio"] }
