[package]
name = "short_link"
version = "0.1.0"
edition = "2021"
publish = false

[dependencies]
chrono = { version = "0.4", features = ["serde"] }
nanoid = "0.4"
serde = { version = "1", features = ["derive"] }
serde_json = "1"
axum = "0.8"
axum-extra = { version = "0.10", features = ["cookie"] }
tokio = { version = "1", features = ["full"] }
sqlx = { version = "0.8", default-features = false, features = ["runtime-tokio", "postgres", "chrono", "migrate", "macros"] }
redis = { version = "*", features = ["tokio-comp", "connection-manager"] }
dotenv = "0.15"
eyre = "0.6"
thiserror = "2"
async-trait = "0.1"
config = { version = "0.15", default-features = false, features = ["toml"] }
utoipa = "5"
utoipa-swagger-ui = { version = "9", features = ["axum"] }
solar = "*"
readonly = "0.2"
jsonwebtoken = "9"
sha2 = "0.10"
