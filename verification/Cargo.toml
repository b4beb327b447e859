[package]
name = "yielding_async"
version = "0.1.0"
edition = "2021"
publish = false

[dependencies]
embassy-futures = "*"
embedded-hal = "*"
embedded-hal-async = "*"
embedded-storage = "*"
embedded-storage-async = "*"
