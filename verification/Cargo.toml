[package]
name = "coolsounds"
version = "0.1.0"
edition = "2021"
publish = false

[dependencies]
rand = "0.4"
rodio = "0.6"
hound = "3"
clap = "2"
