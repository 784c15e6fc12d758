[package]
name = "coin_sim"
version = "0.1.0"
edition = "2021"
publish = false

[dependencies]
sampling = "=0.3.1"
statrs = "=0.19.1"
rand = "=0.9.5"
rand_pcg = "=0.9.0"
