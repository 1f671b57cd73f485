[package]
name = "atlas_config"
version = "0.1.0"
edition = "2021"
publish = false

[dependencies]
toml = "*"
anyhow = "*"
tokio = { version = "*", features = ["rt-multi-thread", "macros", "fs"] }
