[package]
name = "bq41z50"
version = "0.1.0"
edition = "2021"
publish = false

[dependencies]
device-driver = { version = "*", default-features = false }
embedded-batteries-async = "0.3"
embedded-hal-async = "1.0"
