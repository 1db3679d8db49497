[package]
name = "lamellar"
version = "0.1.0"
edition = "2021"
publish = false

[dependencies]
bincode = "1"
crossbeam = "0.8"
serde = { version = "1", features = ["derive"] }
