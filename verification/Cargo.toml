[package]
name = "fast_sde"
version = "0.1.0"
edition = "2021"
publish = false

[dependencies]
rand = "0.8"
rand_distr = "0.4"
rayon = "1"
statrs = { version = "0.17", default-features = false }
