[package]
name = "signal_hub"
version = "0.1.0"
edition = "2021"
publish = false

[dependencies]
actix = "0.7"
futures = "0.1"
uuid = "0.7"
