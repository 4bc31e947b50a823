[package]
name = "payment_engine"
version = "0.1.0"
edition = "2021"
publish = false

[dependencies]
csv = "1"
rust_decimal = "1"
serde = { version = "1", features = ["derive"] }
thiserror = "1"
