[package]
name = "mdcore"
version = "0.1.0"
edition = "2021"
publish = false

[dependencies]
argon2 = "0.5"
base64 = "0.22"
chacha20poly1305 = "0.10"
rand_core = { version = "0.6", features = ["getrandom"] }
serde = { version = "1", features = ["derive"] }
serde_json = "1"
socket2 = { version = "0.5", features = ["all"] }
str0m = { version = "*", default-features = false, features = ["rust-crypto"] }
tungstenite = "0.24"
ureq = { version = "2", features = ["json"] }
uuid = { version = "1", features = ["v4"] }
