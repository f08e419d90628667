[package]
name = "lily_gateway"
version = "0.1.0"
edition = "2021"
publish = false

[dependencies]
uuid = { version = "=1.27.0", features = ["v4"] }
chrono = "=0.4.45"
tokio = { version = "=1.53.2", features = ["rt-multi-thread", "macros", "sync", "net", "signal", "time"] }
axum = { version = "=0.8.9", features = ["ws"] }
reqwest = { version = "=0.13.5", default-features = false, features = ["form"] }
rusqlite = { version = "=0.40.2", features = ["bundled"] }
futures-util = "=0.3.34"
tokio-tungstenite = "=0.30.0"
rust_socketio = { version = "=0.6.0", features = ["async"] }
anyhow = "=1.0.104"
log = "=0.4.34"
dotenv = "=0.15.0"
