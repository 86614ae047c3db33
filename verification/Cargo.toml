[package]
name = "rootcause-extras"
version = "0.1.0"
edition = "2021"
publish = false

[dependencies]
chrono = { version = "*", default-features = false, features = ["alloc", "std", "clock"] }
rootcause = "*"
rootcause-backtrace = "*"
rootcause-internals = "*"
serde = { version = "*", features = ["derive"] }
serde_json = "*"
