[package]
name = "aspect_combiner"
version = "0.1.0"
edition = "2021"
publish = false

[dependencies]
rand_xoshiro = "0.6"
unicode-segmentation = "1"
