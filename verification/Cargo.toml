[package]
name = "webcore"
version = "0.1.0"
edition = "2021"
publish = false

[dependencies]
actix-router = "0.2"
