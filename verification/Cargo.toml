[package]
name = "agent_browser"
version = "0.1.0"
edition = "2021"
publish = false

[dependencies]
serde_json = "1"
getrandom = "0.2"
dirs = "*"
tokio = { version = "1", features = ["rt-multi-thread", "net", "io-std", "io-util", "sync", "macros", "fs"] }
tokio-tungstenite = "*"
futures-util = { version = "0.3", features = ["sink"] }
