[package]
name = "altusd"
version = "0.1.0"
edition = "2021"
publish = false

[dependencies]
serde = { version = "*", features = ["derive"] }
serde_json = "*"
tokio = { version = "*", features = ["macros", "rt-multi-thread", "sync", "time", "net"] }
tokio-tungstenite = "*"
futures = "*"
reqwest = { version = "*", default-features = false, features = ["json"] }
tracing = "*"
tracing-subscriber = "*"
