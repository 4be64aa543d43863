[package]
name = "fs_shim"
version = "0.1.0"
edition = "2021"
publish = false

[dependencies]
serde_json = "1"
libc = "0.2"
once_cell = "1"
parking_lot = "0.12"
