[package]
name = "gridlesslib"
version = "0.1.0"
edition = "2021"
publish = false

[dependencies]
cdshealpix = "*"
serde = { version = "*", features = ["derive"] }
serde_json = "*"
chrono = "*"
clap = { version = "*", features = ["derive"] }
