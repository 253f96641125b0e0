[package]
name = "aigw"
version = "0.1.0"
edition = "2021"
publish = false

[dependencies]
serde = { version = "1", features = ["derive"] }
serde_json = "1"
reqwest = { version = "0.12", default-features = false, features = ["json", "stream"] }
secrecy = "0.10"
eventsource-stream = "0.2"
futures = "0.3"
futures-core = "0.3"
futures-util = "0.3"
bytes = "1"
http = "1"
thiserror = "2"
tokio-stream = "0.1"
bon = "3"
strum = { version = "0.27", features = ["derive"] }
