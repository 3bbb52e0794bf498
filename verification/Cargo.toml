[package]
name = "single_integrator"
version = "0.1.0"
edition = "2021"
publish = false

[dependencies]
clap = { version = "4", features = ["derive"] }
ndarray = "0.16"
ndarray-npy = { version = "0.9", default-features = false, features = ["npz"] }
