[package]
name = "tripchive"
version = "0.1.0"
edition = "2021"
publish = false

[dependencies]
argon2 = "=0.5.3"
axum = "=0.8.9"
axum-extra = { version = "=0.10.3", features = ["cookie", "typed-header"] }
chrono = { version = "=0.4.45", features = ["serde"] }
cookie = "=0.18.2"
dotenvy = "=0.15.7"
hex = "=0.4.3"
hmac = "=0.12.1"
jsonwebtoken = "=9.3.1"
oauth2 = "=5.0.0"
reqwest = { version = "=0.12.28", default-features = false, features = ["json", "rustls-tls"] }
serde = { version = "=1.0.229", features = ["derive"] }
serde_json = { version = "=1.0.154", features = ["preserve_order"] }
sha2 = "=0.10.9"
sqlx = { version = "=0.8.6", default-features = false, features = ["runtime-tokio", "postgres", "chrono", "migrate", "derive"] }
thiserror = "=2.0.21"
tokio = { version = "=1.54.1", features = ["macros", "rt-multi-thread", "net"] }
tower-http = { version = "=0.6.11", features = ["cors"] }
tracing = "=0.1.44"
tracing-subscriber = "=0.3.23"

[dev-dependencies]
base64 = "=0.22.1"
ring = "=0.17.14"
