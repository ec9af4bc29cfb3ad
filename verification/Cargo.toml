[package]
name = "auth_core"
version = "0.1.0"
edition = "2021"
publish = false

[dependencies]
argon2 = "=0.5.3"
chrono = "=0.4.45"
dotenv = "=0.15.0"
jsonwebtoken = "=9.3.1"
rusqlite = { version = "=0.40.2", features = ["bundled"] }
serde = { version = "=1.0.229", features = ["derive"] }
serde_json = { version = "=1.0.154", features = ["preserve_order"] }
thiserror = "=1.0.69"
tokio = { version = "=1.54.1", features = ["full"] }
warp = "=0.3.7"
