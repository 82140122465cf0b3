[package]
name = "modbus_client"
version = "0.1.0"
edition = "2021"
publish = false

[dependencies]
bytes = "1"
easy-modbus = "*"
tokio-util = { version = "0.7", features = ["codec"] }
