[package]
name = "fft_spectrum"
version = "0.1.0"
edition = "2021"
publish = false

[dependencies]
csv = "1"
rustfft = "6"
plotters = { version = "0.3", default-features = false, features = ["bitmap_backend", "line_series"] }
plotters-bitmap = "0.3"
image = { version = "0.25", default-features = false, features = ["png"] }
