[package]
name = "opcua_core"
version = "0.1.0"
edition = "2021"
publish = false

[dependencies]
aes = "0.8"
cbc = "0.1"
chrono = "0.4"
chrono-tz = "0.8"
env_logger = "0.10"
hmac = "0.12"
log = "0.4"
rand = "0.8"
sha1 = "0.10"
sha2 = "0.10"
