[package]
name = "catalog_bridge"
version = "0.1.0"
edition = "2021"
publish = false

[dependencies]
anyhow = "*"
iceberg-rust = "*"
rutie = "*"
tokio = { version = "*", default-features = false, features = ["rt"] }
