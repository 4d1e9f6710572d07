[package]
name = "chanem"
version = "0.1.0"
edition = "2021"
publish = false

[dependencies]
clap = { version = "*", features = ["derive"] }
env_logger = "*"
gilrs = "*"
log = "*"
num = "*"
physical_constants = "*"
rand = "*"
rand_distr = "*"
tokio = { version = "*", features = ["full"] }
