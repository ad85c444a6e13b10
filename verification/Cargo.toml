[package]
name = "ticket_service"
version = "0.1.0"
edition = "2021"
publish = false

[dependencies]
salvo = "*"
serde = { version = "1", features = ["derive"] }
serde_json = "1"
thiserror = "*"
tokio = { version = "1", features = ["rt-multi-thread", "macros", "net", "sync", "io-util"] }
