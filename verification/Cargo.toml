[package]
name = "mmorpg"
version = "0.1.0"
edition = "2021"
publish = false

[dependencies]
bcrypt = "=0.15.1"
jsonwebtoken = "=9.3.1"
chrono = "=0.4.45"
serde = { version = "=1.0.229", features = ["derive"] }
serde_json = { version = "=1.0.154", features = ["preserve_order"] }
bincode = "=1.3.3"
sqlx = { version = "0.8", default-features = false, features = ["runtime-tokio", "sqlite", "chrono"] }
tokio = { version = "=1.54.1", features = ["rt-multi-thread", "macros", "time"] }
log = "=0.4.35"
env_logger = "=0.11.11"
