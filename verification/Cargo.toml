[package]
name = "indradb_lib"
version = "0.1.0"
edition = "2021"
publish = false

[dependencies]
chrono = { version = "=0.4.45", default-features = false, features = ["std"] }
uuid = "=1.29.0"
serde_json = "=1.0.154"
arbitrary = { version = "=1.5.0", features = ["derive"] }
