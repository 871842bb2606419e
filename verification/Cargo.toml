[package]
name = "street_of_zombies"
version = "0.1.0"
edition = "2021"
publish = false

[dependencies]
rand = "0.8"
