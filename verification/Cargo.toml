[package]
name = "burn_autotune"
version = "0.1.0"
edition = "2021"
publish = false

[dependencies]
burn-common = "0.11"
burn-tensor = "0.11"
log = "0.4"
web-time = "*"
