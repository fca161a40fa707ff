[package]
name = "hecto"
version = "0.1.0"
edition = "2021"
publish = false

[dependencies]
unicode-segmentation = "1"
crossterm = "0.23"
tui = { version = "0.18", default-features = false, features = ["crossterm"] }
