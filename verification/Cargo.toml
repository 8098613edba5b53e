[package]
name = "dsp-rtlsdr-rs"
version = "0.1.0"
edition = "2021"
publish = false

[dependencies]
itertools = "0.14"
rustfft = "6.4"
num-complex = { version = "0.4", features = ["bytemuck"] }
bytemuck = "1"
clap = { version = "4.5", features = ["derive"] }
anyhow = "1"
