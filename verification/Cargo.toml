[package]
name = "runtime_env"
version = "0.1.0"
edition = "2021"
publish = false

[dependencies]
datafusion-execution = { version = "*", default-features = false }
datafusion-common = { version = "*", default-features = false }

[dev-dependencies]
tempfile = "*"
