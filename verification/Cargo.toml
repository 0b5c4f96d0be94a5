[package]
name = "tickets"
version = "0.1.0"
edition = "2021"
publish = false

[dependencies]
parking_lot = "0.12"
serde = { version = "1", features = ["derive"] }
serde_json = "1"
thiserror = "1"
anyhow = "1"
axum = { version = "0.7", features = ["macros"] }
hyper = "1"
tokio = { version = "1", features = ["rt-multi-thread", "macros", "net"] }
