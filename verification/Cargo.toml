[package]
name = "jpetstore-rs"
version = "0.1.0"
edition = "2021"
publish = false

[dependencies]
argon2 = "*"
askama = "*"
axum = "*"
serde = { version = "*", features = ["derive"] }
sqlx = { version = "*", default-features = false, features = ["sqlite", "runtime-tokio"] }
thiserror = "*"
tokio = { version = "*", features = ["macros", "rt-multi-thread", "net"] }
tower-sessions = "*"
