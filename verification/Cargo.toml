[package]
name = "todo_store"
version = "0.1.0"
edition = "2021"
publish = false

[dependencies]
actix-cors = "0.7"
actix-web = "4"
env_logger = "0.11"
serde = { version = "1", features = ["derive"] }
serde_json = "1"
