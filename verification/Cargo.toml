[package]
name = "chrome_cdp"
version = "0.1.0"
edition = "2021"
publish = false

[dependencies]
serde_json = "*"
uuid = { version = "*", features = ["v4"] }
tokio = { version = "*", features = ["full"] }
tokio-tungstenite = "*"
futures = "*"
reqwest = { version = "*", default-features = false }
thiserror = "*"
