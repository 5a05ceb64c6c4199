[package]
name = "fccli"
version = "0.1.0"
edition = "2021"
publish = false

[dependencies]
crossterm = "*"
futures-util = "*"
ratatui = "*"
reqwest = { version = "0.12", default-features = false, features = ["json"] }
serde = { version = "1", features = ["derive"] }
serde_json = "1"
thiserror = "*"
time = "0.3"
tokio = { version = "1", features = ["macros", "net", "rt", "rt-multi-thread", "sync", "time"] }
tokio-tungstenite = "*"
tokio-util = "0.7"
