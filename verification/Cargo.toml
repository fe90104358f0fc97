[package]
name = "saferet"
version = "0.1.0"
edition = "2021"
publish = false

[dependencies]
serde = { version = "1", features = ["derive"] }
subtle = "2"
zeroize = "1"
