[package]
name = "bm1397-protocol"
version = "0.2.0"
edition = "2021"
publish = false

[dependencies]
crc-any = { version = "2", default-features = false }
fugit = "0.3"
