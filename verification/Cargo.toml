[package]
name = "tomb_of_the_moon"
version = "0.1.0"
edition = "2021"
publish = false

[dependencies]
bracket-lib = { version = "0.8", default-features = false, features = ["crossterm"] }
specs = { version = "0.20", features = ["serde"] }
specs-derive = "0.4"
