[package]
name = "mathcat_facade"
version = "0.1.0"
edition = "2021"
publish = false

[dependencies]
napi = "3"
napi-derive = "3"
