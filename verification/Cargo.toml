[package]
name = "teo"
version = "0.1.0"
edition = "2021"
publish = false

[dependencies]
async-trait = "0.1"
bson = "2"
chrono = "0.4"
key-path = "*"
rust_decimal = "1"
serde_json = "1"
