[package]
name = "wade"
version = "0.1.0"
edition = "2021"
publish = false

[dependencies]
heapless = "*"
embedded-graphics = "0.8"
embedded-graphics-simulator = "*"
libm = "0.2"
clap = { version = "4", features = ["derive"] }
dirs = "*"
getrandom = "0.3"
rodio = "*"
