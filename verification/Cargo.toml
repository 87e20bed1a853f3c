[package]
name = "zkstate"
version = "0.1.0"
edition = "2021"
publish = false

[dependencies]
anyhow = "1"
chrono = "0.4"
crossbeam-channel = "0.5"
log = "0.4"
serde = { version = "1", features = ["derive"] }
serde_json = "1"
treediff = { version = "*", features = ["with-serde-json"] }
uuid = { version = "1", features = ["v4"] }
zookeeper = "*"
