[package]
name = "speedway_pos"
version = "0.1.0"
edition = "2021"
publish = false

[dependencies]
argon2 = "=0.5.3"
rand_core = { version = "=0.6.4", features = ["getrandom"] }
sha2 = "=0.10.9"
serde = { version = "1", features = ["derive"] }
serde_json = "1"
anyhow = "1"
sqlx = { version = "=0.8.6", default-features = false, features = ["runtime-tokio", "sqlite", "macros", "migrate"] }
tokio = { version = "1", features = ["rt-multi-thread"] }
