[package]
name = "marketplace_v2"
version = "0.1.0"
edition = "2021"
publish = false

[dependencies]
ethers-core = "=2.0.14"
hex = "=0.4.3"
json = "=0.12.4"
hyper = { version = "=0.14.32", features = ["client", "http1", "tcp", "runtime"] }
tokio = { version = "1", features = ["macros", "rt-multi-thread"] }
