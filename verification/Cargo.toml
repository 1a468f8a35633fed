[package]
name = "dft_numint"
version = "0.1.0"
edition = "2021"
publish = false

[dependencies]
libxc = "*"
libcint = "*"
rstsr = "*"
rayon = "*"
