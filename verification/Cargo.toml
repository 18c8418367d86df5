[package]
name = "chessboard"
version = "0.1.0"
edition = "2021"
publish = false

[dependencies]
owlchess = "=0.4.1"
iced = { version = "=0.13.1", default-features = false, features = ["svg", "advanced"] }
