[package]
name = "invoicing"
version = "0.1.0"
edition = "2021"
publish = false

[dependencies]
chrono = { version = "0.4", default-features = false, features = ["std", "clock"] }
rust_decimal = "1"
serde_json = "1"
serde = { version = "1", features = ["derive"] }
base64 = "0.22"
anyhow = "1"
async-trait = "0.1"
axum = { version = "0.8", features = ["multipart"] }
tokio = { version = "1", features = ["macros", "rt-multi-thread", "net"] }
sqlx = { version = "0.8", default-features = false, features = ["runtime-tokio", "sqlite"] }
rusqlite = "0.32"
tera = { version = "1", default-features = false }
tower-http = { version = "0.6", features = ["fs"] }
