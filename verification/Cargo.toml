[package]
name = "tide_websockets"
version = "0.1.0"
edition = "2021"
publish = false

[dependencies]
async-dup = "1"
async-std = "1"
async-tungstenite = "0.14"
base64 = "0.13"
futures-util = "0.3"
serde = "1"
serde_json = "1"
sha1 = "0.10"
tide = "0.16"
