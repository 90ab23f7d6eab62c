[package]
name = "ks_server"
version = "0.1.0"
edition = "2021"
publish = false

[dependencies]
rouille = "*"
serde = { version = "*", features = ["derive"] }
serde_yaml = "*"
thiserror = "*"
