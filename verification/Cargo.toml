[package]
name = "chain_client"
version = "0.1.0"
edition = "2021"
publish = false

[dependencies]
rand = "=0.8.8"
anyhow = "=1.0.104"
async-trait = "=0.1.92"
tokio = { version = "=1.53.2", features = ["rt-multi-thread", "time", "macros"] }
