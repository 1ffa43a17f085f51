[package]
name = "emu"
version = "0.1.0"
edition = "2021"
publish = false

[dependencies]
rustc_apfloat = "=0.2.3"
clap = { version = "=4.6.7", features = ["derive"] }
