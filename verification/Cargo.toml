[package]
name = "stringable_enum"
version = "0.1.0"
edition = "2021"
publish = false

[dependencies]
tracing = "*"
clap = { version = "*", features = ["derive"] }
serde = { version = "*", features = ["derive"] }
