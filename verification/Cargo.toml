[package]
name = "locaray"
version = "0.1.0"
edition = "2021"
publish = false

[dependencies]
regex = "=1.13.1"
url = "=2.5.8"
serde = { version = "=1.0.229", features = ["derive"] }
serde_json = "=1.0.154"
thiserror = "=2.0.21"
tokio = { version = "=1.54.1", features = ["full"] }
hyper = { version = "=1.12.0", features = ["client", "server", "http1"] }
hyper-util = { version = "=0.1.21", features = ["tokio"] }
http-body-util = "=0.1.5"
bytes = "=1.12.1"
chrono = "=0.4.45"
uuid = { version = "=1.29.0", features = ["v4"] }
netstat2 = "=0.11.2"
sysinfo = "=0.40.1"
reqwest = { version = "=0.12.28", default-features = false }
ts-rs = "=12.0.1"
