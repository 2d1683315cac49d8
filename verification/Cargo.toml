[package]
name = "backend"
version = "0.1.0"
edition = "2021"
publish = false

[dependencies]
jsonwebtoken = { version = "=11.1.0", default-features = false, features = ["rust_crypto"] }
serde_json = "=1.0.151"
argon2 = "=0.5.3"
rand_core = { version = "=0.6.4", features = ["getrandom"] }
uuid = { version = "=1.27.0", features = ["v4"] }
parse_duration = "=2.1.1"
