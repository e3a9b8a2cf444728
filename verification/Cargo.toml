[package]
name = "timestamp"
version = "0.1.0"
edition = "2021"
publish = false

[dependencies]
chrono = "0.4"
prost = "0.13"
sea-orm = { version = "1", default-features = false, features = ["with-chrono"] }
serde = { version = "1", features = ["derive"] }
