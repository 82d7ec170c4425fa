[package]
name = "tsmc_rust"
version = "0.1.0"
edition = "2021"
publish = false

[dependencies]
serde_json = "=1.0.151"
clap = { version = "=4.6.7", features = ["derive"] }
rand = "=0.10.3"
rand_distr = "=0.6.0"
nalgebra = "=0.33.3"
cutup = "=0.1.4"
