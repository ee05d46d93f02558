[package]
name = "cache_flow"
version = "0.1.0"
edition = "2021"
publish = false

[dependencies]
anyhow = "1"
async-trait = "0.1"
axum = "0.8"
bcrypt = "0.17"
chrono = { version = "0.4", features = ["serde"] }
config = { version = "0.15", default-features = false, features = ["toml", "json", "yaml"] }
dotenvy = "0.15"
hex = "0.4"
jsonwebtoken = "9"
lettre = { version = "0.11", features = ["tokio1", "tokio1-native-tls"] }
rand = "0.9"
rust_decimal = "1"
serde = { version = "1", features = ["derive"] }
serde_json = "1"
sha2 = "0.10"
sqlx = { version = "0.8", default-features = false, features = ["runtime-tokio", "postgres", "uuid", "chrono", "rust_decimal", "derive", "migrate"] }
thiserror = "2"
tokio = { version = "1", features = ["macros", "rt-multi-thread", "net"] }
tracing = "0.1"
tracing-subscriber = "0.3"
utoipa = { version = "5", features = ["uuid", "chrono"] }
uuid = { version = "1", features = ["v7", "serde"] }
validator = "0.20"
