[package]
name = "chessboard"
version = "0.1.0"
edition = "2021"
publish = false

[dependencies]
owlchess = "=0.4.1"
gtk = "0.16"
relm = "0.24"
relm-derive = "0.24"
anyhow = "=1.0.104"
tr = { version = "=0.1.11", default-features = false }
