[package]
name = "trustfall_core"
version = "0.1.0"
edition = "2021"
publish = false

[dependencies]
async-graphql-value = "*"
chrono = { version = "*", features = ["serde"] }
serde = { version = "*", features = ["derive"] }
