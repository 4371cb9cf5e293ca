[package]
name = "discrete_law"
version = "0.1.0"
edition = "2021"
publish = false

[dependencies]
rand = "0.9"
rand_chacha = "0.9"
rand_pcg = "0.9"
clap = { version = "4", features = ["derive"] }
