[package]
name = "pinball_defense"
version = "0.1.0"
edition = "2021"
publish = false

[dependencies]
digits_iterator = "=0.1.0"
rand = "=0.10.3"
