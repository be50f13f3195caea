[package]
name = "ws_connector"
version = "0.1.0"
edition = "2021"
publish = false

[dependencies]
ws = { version = "=0.9.2", features = ["ssl"] }
openssl = "=0.10.81"
protobuf = "=2.28.0"
qni-core-rs = "=0.3.2"
