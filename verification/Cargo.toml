[package]
name = "nfc_reader"
version = "0.1.0"
edition = "2021"
publish = false

[dependencies]
crc32fast = "1"
hex = "0.4"
clap = { version = "4", features = ["derive"] }
embedded-hal = "1"
linux-embedded-hal = "0.4"
