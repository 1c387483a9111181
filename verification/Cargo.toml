[package]
name = "structmech"
version = "0.1.0"
edition = "2021"
publish = false

[dependencies]
libm = "0.2"
rand = "0.8"
rand_distr = "0.4"
plotters = { version = "0.3", default-features = false, features = ["bitmap_backend", "bitmap_encoder", "line_series"] }
