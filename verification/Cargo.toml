[package]
name = "synthplayer"
version = "0.1.0"
edition = "2021"
publish = false

[dependencies]
rand = "=0.8.8"
lofty = "=0.22.4"
rodio = "=0.20.1"
rustfft = "=6.4.1"
walkdir = "2"
