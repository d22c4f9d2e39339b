[package]
name = "quizbowl"
version = "0.1.0"
edition = "2021"
publish = false

[dependencies]
rapidfuzz = "*"
serde = { version = "*", features = ["derive"] }
serde_json = "*"
url = "*"
tokio = { version = "*", features = ["macros", "rt-multi-thread", "time", "sync"] }
reqwest = { version = "*", default-features = false, features = ["json", "rustls-tls"] }
serenity = { version = "*", default-features = false, features = ["client", "gateway", "rustls_backend", "model"] }
poise = "*"
