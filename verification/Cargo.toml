[package]
name = "allocator"
version = "0.1.0"
edition = "2021"
publish = false

[dependencies]
talc = { version = "=4.4.3", default-features = false, features = ["lock_api"] }
spin = { version = "=0.9.9", features = ["lock_api"] }
