[package]
name = "framecodec"
version = "0.1.0"
edition = "2021"
publish = false

[dependencies]
cobs = "*"
crc32fast = "*"
