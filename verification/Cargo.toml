[package]
name = "row_identity"
version = "0.1.0"
edition = "2021"
publish = false

[dependencies]
sea-query = "*"
