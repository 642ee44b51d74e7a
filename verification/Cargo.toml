[package]
name = "workflow"
version = "0.1.0"
edition = "2021"
publish = false

[dependencies]
uuid = { version = "1", features = ["v4"] }
chrono = "0.4"
serde = { version = "1", features = ["derive"] }
serde_json = "1"
tokio = { version = "1", features = ["rt", "macros", "net", "signal", "time", "sync"] }
axum = "0.7"
futures = "0.3"
async-trait = "0.1"
anyhow = "1"
