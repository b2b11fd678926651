[package]
name = "monadic_mqtt"
version = "0.1.0"
edition = "2021"
publish = false

[dependencies]
serde = { version = "1", features = ["derive"] }
serde_json = "1"
rumqttc = { version = "*", default-features = false }
tokio = { version = "1", features = ["rt", "rt-multi-thread", "macros", "sync", "time"] }
futures = "0.3"
lazy_static = "1"
bytes = "1"
