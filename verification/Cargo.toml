[package]
name = "epics_ca"
version = "0.1.0"
edition = "2021"
publish = false

[dependencies]
chrono = { version = "0.4", default-features = false, features = ["std"] }
futures = "0.3"
pin-project = "1"
libc = "0.2"
