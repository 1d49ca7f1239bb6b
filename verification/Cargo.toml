[package]
name = "travis_sudo"
version = "0.1.0"
edition = "2021"
publish = false

[dependencies]
colored = "*"
cursive = "*"
human-panic = "*"
ignore = "*"
rayon = "*"
regex = "*"
webbrowser = "*"
