[package]
name = "clipboard_sync"
version = "0.1.0"
edition = "2021"
publish = false

[dependencies]
aes-gcm = "0.10"
argon2 = "0.5"
base64 = "0.22"
keyring = "3"
log = "0.4"
serde = { version = "1", features = ["derive"] }
thiserror = "1"
whoami = "*"
