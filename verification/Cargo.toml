[package]
name = "redis_glue"
version = "0.1.0"
edition = "2021"
publish = false

[dependencies]
redis = { version = "0.21", features = ["cluster"] }
