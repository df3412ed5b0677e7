[package]
name = "rust-webvr"
version = "0.1.0"
edition = "2021"
publish = false

[dependencies]
rust-webvr-api = "*"
euclid = "0.19"
gleam = "*"
cgmath = "*"
