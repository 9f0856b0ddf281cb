[package]
name = "bearer_api"
version = "0.1.0"
edition = "2021"
publish = false

[dependencies]
argon2 = "0.5"
axum = "0.8"
axum-extra = { version = "0.10", features = ["typed-header"] }
chrono = "0.4"
dotenv = "0.15"
env_logger = "0.11"
firestore = "*"
jsonwebtoken = "9"
log = "0.4"
rand = "0.9"
reqwest = { version = "0.12", default-features = false, features = ["json"] }
serde = { version = "1", features = ["derive"] }
serde_json = { version = "1", features = ["preserve_order"] }
tokio = { version = "1", features = ["full"] }
tokio-stream = "0.1"
tower-http = { version = "0.6", features = ["cors"] }
unicode-script = "0.5"
