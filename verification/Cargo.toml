[package]
name = "script"
version = "0.1.0"
edition = "2021"
publish = false

[dependencies]
async-trait = "=0.1.92"
futures = "=0.3.34"
rustpython-vm = "=0.4.0"
tokio = { version = "=1.54.1", features = ["rt-multi-thread"] }
