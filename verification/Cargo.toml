[package]
name = "sat_api"
version = "0.1.0"
edition = "2021"
publish = false

[dependencies]
aes-gcm = "0.10"
base64 = "0.22"
hex = "0.4"
rand = "0.8"
bcrypt = "0.17"
chrono = "0.4"
jsonwebtoken = "9"
serde = { version = "1", features = ["derive"] }
serde_json = "1"
thiserror = "2"
async-trait = "0.1"
tokio = { version = "1", features = ["full"] }
axum = { version = "0.8", features = ["multipart"] }
sqlx = { version = "0.8", default-features = false, features = ["runtime-tokio", "postgres", "chrono", "json", "macros", "migrate"] }
utoipa = "5"
tracing = "0.1"
tracing-subscriber = "0.3"
dotenvy = "0.15"
aws-config = "1"
aws-sdk-s3 = "1"
