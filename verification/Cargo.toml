[package]
name = "rust_dmx"
version = "0.1.0"
edition = "2021"
publish = false

[dependencies]
serialport = { version = "4", default-features = false }
serde = { version = "1", features = ["derive"] }
typetag = "0.2"
derive_more = "0.99"
