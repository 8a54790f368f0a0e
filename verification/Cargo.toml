[package]
name = "auth_core"
version = "0.1.0"
edition = "2021"
publish = false

[dependencies]
oauth2 = { version = "4", default-features = false, features = ["reqwest", "rustls-tls"] }
jsonwebtoken = "9"
serde_json = "1"
uuid = { version = "1", features = ["v4"] }
axum = "0.7"
tokio = { version = "1", features = ["rt-multi-thread", "macros", "net"] }
redis = { version = "0.25", default-features = false, features = ["tokio-comp"] }
sqlx = { version = "0.7", default-features = false, features = ["runtime-tokio-rustls", "postgres", "uuid", "chrono"] }
reqwest = { version = "0.11", default-features = false, features = ["json", "rustls-tls"] }
serde = { version = "1", features = ["derive"] }
anyhow = "1"
async-trait = "0.1"
chrono = "0.4"
