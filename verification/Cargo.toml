[package]
name = "scarf_orders"
version = "0.1.0"
edition = "2021"
publish = false

[dependencies]
async-stripe = { version = "*", default-features = false, features = ["runtime-blocking"] }
bson = "=0.14.0"
juniper = "=0.14.2"
mongodb = "=0.4.0"
reqwest = { version = "=0.10.10", features = ["blocking", "json"] }
serde = { version = "=1.0.229", features = ["derive"] }
