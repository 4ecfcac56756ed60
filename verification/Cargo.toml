[package]
name = "squeel"
version = "0.1.0"
edition = "2021"
publish = false

[dependencies]
anyhow = "=1.0.104"
odbc = "=0.16.1"
r2d2 = "=0.8.10"
r2d2_odbc = "=0.5.0"
serde = { version = "=1.0.229", features = ["derive"] }
serde_json = "=1.0.154"
