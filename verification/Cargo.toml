[package]
name = "resource_cache"
version = "0.1.0"
edition = "2021"
publish = false

[dependencies]
async-trait = "0.1"
error-kit = "*"
reqwest = "0.12"
serde = "1"
serde_json = "1"
serde_yaml = "0.9"
