[package]
name = "musicplayer"
version = "0.1.0"
edition = "2021"
publish = false

[dependencies]
clap = "4"
colored = "2"
ctrlc = "3"
rodio = "0.20"
