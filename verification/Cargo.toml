[package]
name = "harcmut"
version = "0.1.0"
edition = "2021"
publish = false

[dependencies]
arc-swap = "*"
parking_lot = { version = "*", features = ["arc_lock"] }
