[package]
name = "backend"
version = "0.1.0"
edition = "2021"
publish = false

[dependencies]
anyhow = "=1.0.104"
axum = "=0.8.9"
chrono = { version = "=0.4.45", features = ["serde"] }
config = { version = "=0.15.27", default-features = false, features = ["toml"] }
hex = "=0.4.3"
hickory-resolver = "=0.25.2"
pgp = { version = "=0.17.0", default-features = false }
rsa = { version = "=0.9.10", default-features = false }
serde = { version = "=1.0.229", features = ["derive"] }
serde_json = "=1.0.154"
sha2 = "=0.10.9"
sqlx = { version = "=0.8.6", default-features = false, features = ["runtime-tokio", "postgres", "uuid", "chrono", "json", "migrate", "derive"] }
tokio = { version = "=1.54.1", features = ["rt-multi-thread", "macros", "net"] }
uuid = { version = "=1.29.0", features = ["v4", "serde"] }

[dev-dependencies]
rand = "=0.8.8"
