[package]
name = "spark_ai_sdk_rs"
version = "0.1.0"
edition = "2021"
publish = false

[dependencies]
chrono = "*"
clap = { version = "*", features = ["derive"] }
data-encoding = "*"
dialoguer = "*"
futures = "*"
ring = "*"
serde_json = "*"
tokio = { version = "*", features = ["macros", "rt-multi-thread"] }
tokio-tungstenite = "*"
tungstenite = "*"
url = "*"
