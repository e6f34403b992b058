[package]
name = "chess_game"
version = "0.1.0"
edition = "2021"
publish = false

[dependencies]
owlchess = "*"
slint = { version = "*", default-features = false, features = ["std", "compat-1-2"] }
rust-i18n = "2"
current_locale = "*"
