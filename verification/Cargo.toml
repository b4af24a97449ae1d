[package]
name = "mwmr"
version = "0.1.0"
edition = "2021"
publish = false

[dependencies]
cheap-clone = "*"

[dev-dependencies]
indexmap = "2"
