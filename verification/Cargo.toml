[package]
name = "telemetry_agent"
version = "0.1.0"
edition = "2021"
publish = false

[dependencies]
rumqttc = { version = "0.24", default-features = false }
serde = { version = "1", features = ["derive"] }
sysinfo = { version = "0.30", default-features = false }
tokio = { version = "1", features = ["macros", "rt", "sync", "time"] }
toml = "0.8"
