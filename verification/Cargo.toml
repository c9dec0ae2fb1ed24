[package]
name = "hl_prep"
version = "0.1.0"
edition = "2021"
publish = false

[dependencies]
clap = { version = "*", features = ["derive"] }
color-eyre = "*"
strip-ansi-escapes = "*"
termcolor = "*"
typst-ansi-hl = "*"
