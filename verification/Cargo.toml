[package]
name = "askadb_query_engine"
version = "0.1.0"
edition = "2021"
publish = false

[dependencies]
axum = "*"
rusqlite = "*"
serde = { version = "1", features = ["derive"] }
serde_json = "1"
tokio = { version = "1", features = ["full"] }
tower-http = { version = "*", features = ["cors"] }
tracing = "0.1"
tracing-subscriber = "0.3"
