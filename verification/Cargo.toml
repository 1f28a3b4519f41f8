[package]
name = "dtn7"
version = "0.1.0"
edition = "2021"
publish = false

[dependencies]
url = "=2.5.8"
serde_cbor = "=0.11.2"
serde_bytes = "=0.11.19"
crc = "=1.8.1"
chrono = "=0.4.45"
serde = { version = "=1.0.229", features = ["derive"] }
serde_json = "=1.0.154"
bp7 = "=0.12.1"
humantime = "=2.4.0"
