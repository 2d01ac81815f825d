[package]
name = "dash"
version = "0.1.0"
edition = "2021"
publish = false

[dependencies]
argon2 = "0.5"
byte-unit = "5"
chrono = "0.4"
ctrlc = "3"
rand = "0.8"
resolv-conf = "0.7"
rmp-serde = "1"
serde = { version = "1", features = ["derive"] }
serde_cbor = "0.11"
serde_json = "1"
sha2 = "0.10"
sio = "*"
url = "2"
uuid = { version = "1", features = ["v4"] }
