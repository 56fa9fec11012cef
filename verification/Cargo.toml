[package]
name = "sen0177"
version = "0.4.0"
edition = "2021"
publish = false

[dependencies]
embedded-hal = "0.2"
nb = "0.1"
