[package]
name = "bento"
version = "0.1.0"
edition = "2021"
publish = false

[dependencies]
argon2 = "0.5"
base64 = "0.22"
bincode = { version = "2", default-features = false, features = ["std"] }
papaya = "0.2"
rand = "0.9"
redb = "3"
time = "0.3"
uuid = { version = "1", features = ["v7"] }
axum = "0.8"
axum-client-ip = "1"
axum-extra = { version = "*", features = ["cookie-private"] }
serde = { version = "1", features = ["derive"] }
thiserror = "2"
tokio = { version = "1", features = ["rt-multi-thread", "macros", "net"] }
toml = "*"
tracing = "0.1"
tracing-subscriber = "0.3"
