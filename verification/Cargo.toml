[package]
name = "chathub"
version = "0.1.0"
edition = "2021"
publish = false

[dependencies]
anyhow = "*"
axum = { version = "*", features = ["ws"] }
brainrot = "=0.1.0"
chrono = "=0.4.45"
clap = { version = "*", features = ["derive"] }
futures-util = "*"
rusqlite = { version = "*", features = ["bundled"] }
serde = { version = "*", features = ["derive"] }
serde_json = "*"
tokio = { version = "*", features = ["full"] }
tower-http = { version = "*", features = ["cors", "fs"] }
tracing = "*"
tracing-subscriber = "*"
uuid = { version = "=1.27.0", features = ["v7"] }
