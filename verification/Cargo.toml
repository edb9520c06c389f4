[package]
name = "querycache"
version = "0.1.0"
edition = "2021"
publish = false

[dependencies]
rusqlite = { version = "*", features = ["bundled"] }
flate2 = "*"
chrono = "*"
serde = { version = "*", features = ["derive"] }
serde_json = "*"
cynic = "*"
