[package]
name = "omnihub_core"
version = "0.1.0"
edition = "2021"
publish = false

[dependencies]
aes-gcm = "=0.10.3"
argon2 = "=0.5.3"
base64 = "=0.22.1"
chrono = "=0.4.45"
hkdf = "=0.12.4"
parking_lot = "=0.12.5"
rand = "=0.8.8"
regex = "=1.13.1"
serde = { version = "=1.0.229", features = ["derive"] }
serde_json = "=1.0.154"
sha2 = "=0.10.9"
url = "=2.5.8"
zeroize = "=1.9.1"
dirs = "=5.0.1"
hostname = "=0.4.2"
anyhow = "=1.0.104"
urlencoding = "2"
uuid = { version = "1", features = ["v4"] }
