[package]
name = "auth_core"
version = "0.1.0"
edition = "2021"
publish = false

[dependencies]
argon2 = { version = "*", features = ["std"] }
chrono = "*"
rand_core = { version = "*", features = ["getrandom"] }
serde = { version = "*", features = ["derive"] }
serde_json = "*"
