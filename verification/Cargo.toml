[package]
name = "guess_note"
version = "0.1.0"
edition = "2021"
publish = false

[dependencies]
anyhow = "1"
argh = "0.1"
midir = "0.9"
rand = "0.8"
