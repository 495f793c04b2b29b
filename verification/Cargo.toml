[package]
name = "nes_apu"
version = "0.1.0"
edition = "2021"
publish = false

[dependencies]
blip_buf = "*"
