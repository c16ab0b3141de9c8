[package]
name = "ai_provider"
version = "0.1.0"
edition = "2021"
publish = false

[dependencies]
serde_json = "=1.0.154"
uuid = { version = "=1.29.0", features = ["v4"] }
async-trait = "=0.1.92"
futures = "=0.3.34"
futures-timer = "=3.0.4"
log = "=0.4.35"
reqwest = { version = "=0.12.28", default-features = false, features = ["json", "stream"] }
reqwest-eventsource = "=0.6.0"
