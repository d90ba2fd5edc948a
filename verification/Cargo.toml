[package]
name = "container_gateway"
version = "0.1.0"
edition = "2021"
publish = false

[dependencies]
dotenv = "=0.15.0"
once_cell = "=1.21.4"
rocket = { version = "0.5", default-features = false }
