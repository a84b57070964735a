[package]
name = "plate-handler"
version = "0.1.0"
edition = "2021"
publish = false

[dependencies]
bytes = "0.5"
env_logger = "0.7"
failure = "0.1"
futures = "0.3"
image = { version = "0.23", default-features = false, features = ["jpeg"] }
log = "0.4"
reqwest = { version = "0.10", default-features = false, features = ["json"] }
rusqlite = { version = "0.24", features = ["bundled"] }
serde_json = "1"
tokio = { version = "0.2", features = ["full"] }
tokio-tungstenite = "0.11"
tungstenite = "0.11"
url = "2"
uuid = { version = "0.8", features = ["v4"] }
warp = "0.2"
