[package]
name = "photobooth"
version = "0.1.0"
edition = "2021"
publish = false

[dependencies]
anim = "0.1"
base64 = "0.22"
email_address = { version = "0.2", default-features = false }
image = { version = "0.24", default-features = false, features = ["png"] }
nokhwa = { version = "0.10", features = ["input-native"] }
reqwest = { version = "0.11", default-features = false, features = ["json", "rustls-tls"] }
serde = { version = "1", features = ["derive"] }
serde_json = "1"
tokio = { version = "1", features = ["rt-multi-thread"] }
