[package]
name = "newsletter_auth"
version = "0.1.0"
edition = "2021"
publish = false

[dependencies]
actix-web = { version = "=4.15.0", default-features = false, features = ["macros"] }
async-trait = "=0.1.92"
chrono = { version = "=0.4.45", default-features = false, features = ["clock", "serde"] }
dotenv = "=0.15.0"
env_logger = { version = "=0.11.11", default-features = false }
jsonwebtoken = { version = "=11.1.0", default-features = false, features = ["rust_crypto"] }
lettre = "=0.11.23"
sea-orm = "=2.0.4"
sea-orm-migration = "=2.0.4"
serde = { version = "=1.0.229", features = ["derive"] }
serde_json = "=1.0.151"
sha256 = "=1.6.0"
uuid = { version = "=1.27.0", features = ["serde", "v4"] }
