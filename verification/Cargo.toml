[package]
name = "emu8086"
version = "0.1.0"
edition = "2021"
publish = false

[dependencies]
argh = "0.1"
rand = "0.9"
rand_chacha = "0.9"
serde = { version = "1", features = ["derive"] }
simd-json = "*"
