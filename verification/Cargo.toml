[package]
name = "vecshard"
version = "0.2.1"
edition = "2021"
publish = false

[dependencies]
serde = "1"
