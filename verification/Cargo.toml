[package]
name = "everruns_sdk"
version = "0.1.0"
edition = "2021"
publish = false

[dependencies]
serde_json = "1"
serde = { version = "1", features = ["derive"] }
reqwest = { version = "0.12", default-features = false, features = ["json", "stream"] }
reqwest-eventsource = "0.6"
tokio = { version = "1", features = ["rt-multi-thread", "macros", "time"] }
futures = "0.3"
url = "2"
secrecy = "0.10"
