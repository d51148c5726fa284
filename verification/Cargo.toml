[package]
name = "multi-util"
version = "1.1.0"
edition = "2021"
publish = false

[dependencies]
multi-base = "=1.0.4"
multi-trait = "=1.0.5"
serde = "=1.0.229"
