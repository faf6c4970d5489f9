[package]
name = "task_store"
version = "0.1.0"
edition = "2021"
publish = false

[dependencies]
dotenv = "0.15"
postgres = { version = "0.19", features = ["with-uuid-1"] }
uuid = "1"
