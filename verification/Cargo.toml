[package]
name = "dev_output"
version = "0.1.0"
edition = "2021"
publish = false

[dependencies]
md4 = "0.10"
twox-hash = "1.6"
