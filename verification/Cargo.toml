[package]
name = "user_auth"
version = "0.1.0"
edition = "2021"
publish = false

[dependencies]
bcrypt = "*"
uuid = { version = "1", features = ["v4"] }
rand = "0.9"
actix-web = { version = "4", default-features = false, features = ["macros"] }
rusqlite = { version = "*", features = ["bundled"] }
lettre = "0.11"
serde = { version = "1", features = ["derive"] }
dotenv = "0.15"
env_logger = "0.11"

[dev-dependencies]
regex = "1"
