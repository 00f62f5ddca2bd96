[package]
name = "tdn_rpc"
version = "0.1.0"
edition = "2021"
publish = false

[dependencies]
futures-util = { version = "0.3", features = ["sink"] }
httparse = "1"
rand_chacha = "0.3"
rand_core = { version = "0.6", features = ["getrandom"] }
serde_json = "1"
tdn_types = "*"
tokio = { version = "1", features = ["full"] }
tokio-tungstenite = "0.20"
