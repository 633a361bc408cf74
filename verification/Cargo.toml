[package]
name = "fr_acc"
version = "0.1.0"
edition = "2021"
publish = false

[dependencies]
actix-web = "4"
deadpool-redis = "*"
fr-rust = "*"
serde = { version = "1", features = ["derive"] }
serde_json = "1"
