[package]
name = "confirm_dialog"
version = "0.1.0"
edition = "2021"
publish = false

[dependencies]
clap = { version = "4", features = ["derive"] }
slint = { version = "1", default-features = false, features = ["std", "compat-1-2"] }
