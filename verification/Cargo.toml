[package]
name = "nes6502"
version = "0.1.0"
edition = "2021"
publish = false

[dependencies]
serde = { version = "*", features = ["derive"] }
sonic-rs = "=0.5.10"
