[package]
name = "image_tagger"
version = "0.1.0"
edition = "2021"
publish = false

[dependencies]
rand = "0.8"
clap = "4"
log = "0.4"
rocket = "0.5"
