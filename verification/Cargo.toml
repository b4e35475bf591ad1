[package]
name = "ocpp_cp_simulator"
version = "0.1.0"
edition = "2021"
publish = false

[dependencies]
anyhow = "=1.0.104"
chrono = "=0.4.45"
clap = { version = "=4.6.7", features = ["derive"] }
futures-util = "=0.3.34"
rand = "=0.10.3"
serde = { version = "=1.0.229", features = ["derive"] }
serde_json = "=1.0.151"
tokio = { version = "=1.53.2", features = ["full"] }
tokio-tungstenite = "=0.30.0"
toml = "=1.1.7"
tracing = "=0.1.44"
tracing-subscriber = "=0.3.23"
tungstenite = "=0.30.0"
url = "=2.5.8"
uuid = { version = "=1.27.0", features = ["v4"] }

[dev-dependencies]
rust-ocpp = { version = "=3.0.4", features = ["v1_6", "v2_0_1"] }
