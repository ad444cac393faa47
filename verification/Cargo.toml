[package]
name = "hikaru"
version = "0.1.0"
edition = "2021"
publish = false

[dependencies]
serde = { version = "1", features = ["derive"] }
serde_json = "1"
flate2 = "1"
reqwest = { version = "0.12", features = ["json"] }
async-tungstenite = { version = "0.28", features = ["tokio-runtime", "tokio-native-tls"] }
tokio = { version = "1", features = ["rt-multi-thread", "macros", "net", "time", "sync"] }
futures-util = { version = "0.3", features = ["sink"] }
async-trait = "0.1"
env_logger = "0.11"
ansi_term = "0.12"
log = "0.4"
