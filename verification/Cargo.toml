[package]
name = "zeroclaw"
version = "0.1.0"
edition = "2021"
publish = false

[dependencies]
argon2 = "0.5"
serde_json = "1"
serde = { version = "1", features = ["derive"] }
anyhow = "1"
tokio = { version = "1", features = ["macros", "rt-multi-thread", "sync", "time", "process", "io-util"] }
chrono = "0.4"
uuid = { version = "1", features = ["v4"] }
toml = "0.8"
urlencoding = "2"
reqwest = { version = "0.12", default-features = false, features = ["json"] }
