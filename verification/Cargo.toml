[package]
name = "woocraft"
version = "0.6.0"
edition = "2021"
publish = false

[dependencies]
ropey = "1"
chrono = "0.4"
regex = "1"
