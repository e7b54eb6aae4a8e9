[package]
name = "rustudio"
version = "0.1.0"
edition = "2021"

[dependencies]
ncurses = "=5.88.0"
