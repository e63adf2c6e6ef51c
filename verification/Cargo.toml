[package]
name = "chicken"
version = "0.1.0"
edition = "2021"
publish = false

[dependencies]
borsh = { version = "1", features = ["derive"] }
pinocchio = "0.8"
pinocchio-system = "0.2"
pinocchio-token = "0.3"
thiserror = "1"
