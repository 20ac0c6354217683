[package]
name = "bb8-oracle"
version = "0.2.0"
edition = "2021"
publish = false

[dependencies]
async-trait = "0.1"
bb8 = "0.8"
oracle = "0.6"
tokio = { version = "1", features = ["rt"] }
