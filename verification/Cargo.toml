[package]
name = "cozy_player"
version = "0.1.0"
edition = "2021"
publish = false

[dependencies]
crossbeam-channel = "*"
arc-swap = "*"
argh = "*"
cpal = "*"
symphonia = { version = "*", features = ["mp3", "aac", "isomp4"] }
ogg-opus = "*"
