[package]
name = "lazy_mut"
version = "0.1.0"
edition = "2021"
publish = false

[dependencies]
parking_lot = { version = "*", features = ["send_guard"] }

[dev-dependencies]
crossbeam-utils = "*"
