[package]
name = "sigma_instrumentation"
version = "0.1.0"
edition = "2021"
publish = false

[dependencies]
chrono = { version = "*", default-features = false, features = ["clock", "std"] }
image = { version = "*", default-features = false, features = ["png"] }
rfd = "*"
serde = { version = "*", features = ["derive"] }
slint = { version = "*", default-features = false, features = ["std", "compat-1-2"] }
