[package]
name = "pilot_sys"
version = "0.1.0"
edition = "2021"
publish = false

[dependencies]
futures = "*"
