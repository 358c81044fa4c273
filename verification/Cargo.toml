[package]
name = "image_compressor"
version = "0.1.0"
edition = "2021"
publish = false

[dependencies]
anyhow = "1"
crossbeam-channel = "0.5"
fast_image_resize = "4"
image = { version = "0.24", default-features = false, features = ["jpeg", "png", "webp", "bmp"] }
img-parts = "0.3"
jpeg-encoder = "0.6"
rayon = "1"
