[package]
name = "lambda_extension"
version = "0.1.0"
edition = "2021"
publish = false

[dependencies]
sentry-types = "*"
reqwest = { version = "*", default-features = false, features = ["blocking"] }
ctrlc = "*"
libc = "*"
anyhow = "*"
