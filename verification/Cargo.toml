[package]
name = "monitoring"
version = "0.1.0"
edition = "2021"
publish = false

[dependencies]
serde_json = "1"
serde = { version = "1", features = ["derive"] }
tokio = { version = "1", features = ["net", "io-util", "time", "macros", "rt"] }
futures = "0.3"
reqwest = { version = "0.12", default-features = false, features = ["json"] }
envy = "0.4"
tracing = "0.1"
tracing-subscriber = "0.3"
