[package]
name = "os_crypt"
version = "0.1.0"
edition = "2021"
publish = false

[dependencies]
aes = "=0.7.5"
block-modes = "=0.8.1"
hex = "=0.4.3"
hmac = "=0.12.1"
keyring = "=1.2.1"
pbkdf2 = { version = "=0.11.0", default-features = false }
rand = "=0.8.8"
serde_json = "=1.0.154"
sha1 = "=0.10.7"
