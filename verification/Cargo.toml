[package]
name = "protobug"
version = "0.1.0"
edition = "2021"
publish = false

[dependencies]
base64 = "0.22"
protobuf = "3"
protobuf-json-mapping = "3"
protobuf-parse = "3"
serde_json = "1"
clap = { version = "4", features = ["derive"] }
ratatui = "0.29"
crossterm = "0.28"
camino = "1"
