[package]
name = "chat_backend"
version = "0.1.0"
edition = "2021"
publish = false

[dependencies]
actix-web = { version = "=4.18.1", default-features = false, features = ["macros"] }
actix-ws = "=0.4.0"
bcrypt = "=0.19.3"
chrono = { version = "=0.4.45", features = ["serde"] }
config = { version = "=0.15.27", default-features = false }
deadpool-postgres = { version = "=0.14.2", features = ["serde"] }
diesel = { version = "=2.3.14", default-features = false, features = ["postgres_backend"] }
dotenv = "=0.15.0"
futures-util = "=0.3.34"
jsonwebtoken = "=9.3.1"
serde = { version = "=1.0.229", features = ["derive"] }
serde_json = "=1.0.154"
tokio = { version = "=1.54.1", features = ["rt", "sync", "time", "macros"] }
tokio-postgres = { version = "=0.7.18", features = ["with-uuid-1", "with-chrono-0_4"] }
uuid = { version = "=1.29.0", features = ["v4", "serde"] }
validator = { version = "=0.21.0", features = ["derive"] }
