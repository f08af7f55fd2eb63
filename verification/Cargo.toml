[package]
name = "common_db"
version = "0.1.0"
edition = "2021"
publish = false

[dependencies]
aes-gcm = "=0.10.3"
chacha20poly1305 = "=0.10.1"
rand = "=0.8.8"
zeroize = "=1.9.1"
argon2 = "=0.5.3"
anyhow = "=1.0.104"
thiserror = "=1.0.69"
tracing = "=0.1.44"
chrono = { version = "=0.4.45", features = ["serde"] }
uuid = { version = "=1.27.0", features = ["v4", "serde"] }
serde = { version = "=1.0.229", features = ["derive"] }
sqlx = { version = "=0.7.4", default-features = false, features = ["sqlite", "runtime-tokio", "uuid", "chrono"] }
