[package]
name = "identity_gateway"
version = "0.1.0"
edition = "2021"
publish = false

[dependencies]
aes-gcm = "0.10"
base64 = "0.22"
getrandom = "0.2"
jsonwebtoken = "9"
oauth2 = { version = "4", default-features = false }
rand = "0.8"
sha2 = "0.10"
serde = { version = "1", features = ["derive"] }
serde_json = "1"
tokio = { version = "1", features = ["rt-multi-thread", "macros", "net"] }
axum = "0.7"
reqwest = { version = "0.12", default-features = false, features = ["json"] }
