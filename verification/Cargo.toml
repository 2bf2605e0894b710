[package]
name = "evm_client"
version = "0.1.0"
edition = "2021"
publish = false

[dependencies]
ethers = { version = "2.0", default-features = false, features = ["rustls"] }
