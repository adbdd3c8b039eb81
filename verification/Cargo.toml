[package]
name = "sub_rate"
version = "0.1.0"
edition = "2021"
publish = false

[dependencies]
async-std = { version = "=1.13.2", features = ["attributes"] }
clap = "=3.2.25"
env_logger = { version = "=0.11.11", default-features = false }
futures = "=0.3.34"
zenoh = { version = "=1.10.1", default-features = false }
