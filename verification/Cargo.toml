[package]
name = "powerselect"
version = "0.1.0"
edition = "2021"
publish = false

[dependencies]
dialoguer = { version = "0.11", default-features = false, features = ["fuzzy-select"] }
glob = "0.3"
