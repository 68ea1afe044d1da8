[package]
name = "dex_cpi"
version = "0.1.0"
edition = "2021"
publish = false

[dependencies]
pinocchio = { version = "=0.11.2", features = ["cpi"] }
five8_const = "=1.0.0"
