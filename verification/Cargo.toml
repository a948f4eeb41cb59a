[package]
name = "nvim-rs"
version = "0.1.0"
edition = "2021"
publish = false

[dependencies]
futures = "0.3"
glib = "0.18"
gtk4 = "0.7"
once_cell = "1"
