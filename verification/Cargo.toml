[package]
name = "uefi_ui"
version = "0.1.0"
edition = "2021"
publish = false

[dependencies]
embedded-graphics = "=0.8.2"
fontdue = "=0.9.5"
minipng = "=1.0.0"
uefi = { version = "=0.41.0", features = ["alloc"] }
uefi-raw = "=0.17.0"
