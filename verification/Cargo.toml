[package]
name = "book_service"
version = "0.1.0"
edition = "2021"
publish = false

[dependencies]
actix-web = "*"
deadpool-postgres = "*"
dotenv = "*"
env_logger = "*"
serde = { version = "*", features = ["derive"] }
tokio-postgres = "*"
