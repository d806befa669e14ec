[package]
name = "next_router"
version = "0.1.0"
edition = "2021"
publish = false

[dependencies]
anyhow = "1"
futures = "0.3"
indexmap = "2"
serde = { version = "1", features = ["derive"] }
serde_json = "1"
