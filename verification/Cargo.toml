[package]
name = "safe_pool"
version = "0.1.0"
edition = "2021"
publish = false

[dependencies]
deadpool-redis = { version = "*", features = ["cluster"] }
deadpool = "*"
