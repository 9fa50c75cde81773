[package]
name = "putty_rs"
version = "0.1.0"
edition = "2021"
publish = false

[dependencies]
clap = { version = "4", features = ["derive"] }
crossterm = "0.28"
log = "0.4"
serialport = { version = "4", default-features = false }
