[package]
name = "curve_repr"
version = "0.1.0"
edition = "2021"
publish = false

[dependencies]
ark-bn254 = "0.3"
ark-ec = "0.3"
ark-ff = "0.3"
ark-std = "0.3"
rand = "0.8"
