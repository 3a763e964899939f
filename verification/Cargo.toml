[package]
name = "royalboard"
version = "0.1.0"
edition = "2021"
publish = false

[dependencies]
uuid = { version = "1", features = ["v4"] }
bcrypt = "*"
serde = { version = "1", features = ["derive"] }
serde_json = "1"
redis = "*"
redis-macros = "*"
deadpool-redis = "*"
tokio = { version = "1", features = ["rt-multi-thread", "macros", "sync"] }
dotenv = "*"
sqlx = { version = "*", default-features = false, features = ["mysql", "runtime-tokio", "json", "macros", "derive"] }
water_http = "*"
yarte = "*"
