[package]
name = "show2"
version = "0.1.0"
edition = "2021"
publish = false

[dependencies]
anyhow = "1"
rusb = "0.9"
