[package]
name = "cqrs_es2_store"
version = "0.1.0"
edition = "2021"
publish = false

[dependencies]
cqrs-es2 = "*"
log = "*"
rusqlite = { version = "*", features = ["bundled"] }
serde = { version = "*", features = ["derive"] }
serde_json = "*"
