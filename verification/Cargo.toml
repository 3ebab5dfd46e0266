[package]
name = "user_registry"
version = "0.1.0"
edition = "2021"
publish = false

[dependencies]
bcrypt = "*"
chrono = "0.4"
uuid = { version = "1", features = ["v4"] }
ethers-core = "2"
ethers-signers = "2"
