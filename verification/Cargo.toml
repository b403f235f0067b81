[package]
name = "nooku"
version = "0.1.0"
edition = "2021"
publish = false

[dependencies]
chrono = "0.4"
reqwest = { version = "0.11", default-features = false, features = ["rustls-tls"] }
serde_json = "1"
serenity = { version = "0.11", features = ["client", "standard_framework", "voice"] }
songbird = "0.3"
tokio = { version = "1", features = ["macros", "rt-multi-thread"] }
tracing-subscriber = "0.3"
