[package]
name = "spark_shortcuts"
version = "0.1.0"
edition = "2021"
publish = false

[dependencies]
chrono = "0.4"
evalexpr = "*"
copypasta = "*"
winapi = { version = "0.3", features = ["winuser"] }
