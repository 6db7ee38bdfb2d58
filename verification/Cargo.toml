[package]
name = "auth_core"
version = "0.1.0"
edition = "2021"
publish = false

[dependencies]
argon2 = "=0.5.3"
jsonwebtoken = "=9.3.1"
chrono = "=0.4.45"
serde_json = "=1.0.151"
uuid = { version = "=1.27.0", features = ["v4"] }
rand_core = { version = "=0.6.4", features = ["std"] }
