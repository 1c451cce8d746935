[package]
name = "bmi270"
version = "0.1.0"
edition = "2021"
publish = false

[dependencies]
heapless = "*"
embassy-time = { version = "*", features = ["std"] }
device-driver = "*"
embedded-hal = "1"
embedded-hal-async = "1"
