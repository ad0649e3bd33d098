[package]
name = "socket_relay"
version = "0.1.0"
edition = "2021"
publish = false

[dependencies]
serde = "*"
serde_json = "*"
url = "*"
surf = { version = "*", default-features = false, features = ["h1-client-rustls"] }
async-std = { version = "*", features = ["attributes"] }
async-tls = "*"
async-tungstenite = "*"
tungstenite = "*"
futures-util = "*"
